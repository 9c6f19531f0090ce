//! Frame-production core of a small rendering engine: fixed-step physics,
//! an ordered stack of layers, a command recorder, swapchain bookkeeping and
//! the event-driven loop that decides when to rebuild, submit and present.
pub mod delta_time;
pub mod event;
pub mod renderer;
pub mod layer;
pub mod layer_stack;
pub mod physics;
pub mod swapchain;
pub mod frame;
pub mod application;
pub mod new_layer;
