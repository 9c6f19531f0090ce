use vstd::prelude::*;

verus! {

/// A width and height in pixels.
#[derive(Debug, Clone, Copy, PartialEq, Eq, Structural)]
pub struct Extent {
    pub width: u32,
    pub height: u32,
}

/// The window events the loop reacts to, with their payloads as plain values.
#[derive(Debug, Clone, Copy, PartialEq, Eq, Structural)]
pub enum WindowEvent {
    CloseRequested,
    RedrawRequested,
    Resized { width: u32, height: u32 },
    CursorMoved { x: i32, y: i32 },
    MouseInput { button: u16, pressed: bool },
    KeyboardInput { key: u32, pressed: bool, is_synthetic: bool },
    Other,
}

impl WindowEvent {
    /// Whether the event is one that is handed on to the layers' `on_event`.
    pub open spec fn is_forwarded(self) -> bool {
        match self {
            WindowEvent::Resized { .. } => true,
            WindowEvent::CursorMoved { .. } => true,
            WindowEvent::MouseInput { .. } => true,
            WindowEvent::KeyboardInput { .. } => true,
            _ => false,
        }
    }
}

} // verus!
