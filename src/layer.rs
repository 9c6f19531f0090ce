use vstd::prelude::*;
use crate::delta_time::DeltaTime;
use crate::event::WindowEvent;
use crate::renderer::Renderer;

verus! {

/// The six callbacks through which the loop drives a layer.
#[derive(Debug, Clone, Copy, PartialEq, Eq, Structural)]
pub enum LayerCallback {
    Ready,
    Update(DeltaTime),
    PhysicsUpdate(DeltaTime),
    Render,
    Event(WindowEvent),
    Close,
}

/// A participant in the frame loop, implemented by application code.
pub trait Layer {
    fn on_ready(&mut self);

    fn on_update(&mut self, delta: &DeltaTime);

    /// Adds draw work to the render-pass scope that is open on `renderer`:
    /// what was recorded before stays, the scope stays open and the pipeline
    /// stays as it was.
    fn on_render(&mut self, renderer: &mut Renderer)
        requires
            old(renderer).scope() is Some,
        ensures
            old(renderer).recorded().is_prefix_of(final(renderer).recorded()),
            final(renderer).scope() == old(renderer).scope(),
            final(renderer).viewport_spec() == old(renderer).viewport_spec(),
    ;

    fn on_physics_update(&mut self, delta: &DeltaTime);

    fn on_event(&mut self, event: &WindowEvent);

    fn on_close(&mut self);
}

} // verus!
