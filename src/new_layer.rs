use vstd::prelude::*;
use crate::delta_time::DeltaTime;
use crate::event::WindowEvent;
use crate::layer::Layer;
use crate::renderer::Renderer;

verus! {

/// A layer that draws one triangle per frame and otherwise does nothing.
#[derive(Debug, Clone, Copy, PartialEq, Eq, Structural)]
pub struct NewLayer;

impl Layer for NewLayer {
    fn on_ready(&mut self) {
    }

    fn on_update(&mut self, _delta: &DeltaTime) {
    }

    fn on_render(&mut self, renderer: &mut Renderer) {
        renderer.draw_triangle();
    }

    fn on_physics_update(&mut self, _delta: &DeltaTime) {
    }

    fn on_event(&mut self, _event: &WindowEvent) {
    }

    fn on_close(&mut self) {
    }
}

} // verus!
