use vstd::prelude::*;
use crate::delta_time::DeltaTime;
use crate::event::{Extent, WindowEvent};
use crate::frame::{
    AcquireOutcome, FlushAction, FlushOutcome, FrameAction, PresentState, RecreationPlan,
    acquire_action, acquire_is_stale, flush_action, plan_for, resized,
};
use crate::layer::{Layer, LayerCallback};
use crate::layer_stack::{Dispatch, LayerStack, round, rounds};
use crate::physics::{
    carried, physics_delta, physics_update, remainder_for, steps_for, update,
};
use crate::renderer::{ClearColor, CommandList, RenderCommand, Renderer};
use crate::swapchain::{GraphicsContext, GraphicsError, SwapchainConfig, recreated_config};

verus! {

/// Grey level of the colour each frame is cleared to (about 0.1 of full).
pub const CLEAR_GREY: u8 = 26;

/// The colour each frame is cleared to.
pub open spec fn frame_clear_color() -> ClearColor {
    ClearColor { r: CLEAR_GREY, g: CLEAR_GREY, b: CLEAR_GREY, a: 255 }
}

/// Whether `list` is a recording for framebuffer `i`: it opens a render pass
/// on that framebuffer, cleared to the frame colour, and ends by closing it.
pub open spec fn is_frame_recording(list: CommandList, i: int) -> bool {
    &&& list.commands@.len() >= 2
    &&& list.commands@[0] == (RenderCommand::BeginRenderPass {
        framebuffer: i as usize,
        clear_color: frame_clear_color(),
    })
    &&& list.commands@.last() == RenderCommand::EndRenderPass
}

/// Records one command list per framebuffer, in framebuffer order: for each,
/// a render pass is opened, every layer's `on_render` adds its draws in push
/// order, and the pass is closed and submitted.
pub fn build_command_lists<L: Layer>(
    renderer: &mut Renderer,
    layer_stack: &mut LayerStack<L>,
    framebuffer_count: usize,
) -> (r: Vec<CommandList>)
    requires
        old(renderer).scope() is None,
        old(renderer).recorded().len() == 0,
    ensures
        r@.len() == framebuffer_count,
        forall|i: int| 0 <= i < framebuffer_count ==> is_frame_recording(#[trigger] r@[i], i),
        final(renderer).scope() is None,
        final(renderer).recorded().len() == 0,
        final(renderer).viewport_spec() == old(renderer).viewport_spec(),
        final(layer_stack).layers().len() == old(layer_stack).layers().len(),
        final(layer_stack).history() == old(layer_stack).history() + rounds(
            framebuffer_count as nat,
            old(layer_stack).layers().len() as int,
            LayerCallback::Render,
        ),
{
    let ghost n = layer_stack.layers().len() as int;
    let mut lists: Vec<CommandList> = Vec::new();
    let clear_color = ClearColor { r: CLEAR_GREY, g: CLEAR_GREY, b: CLEAR_GREY, a: 255 };
    let mut i: usize = 0;
    while i < framebuffer_count
        invariant
            i <= framebuffer_count,
            lists@.len() == i,
            clear_color == frame_clear_color(),
            forall|j: int| 0 <= j < i ==> is_frame_recording(#[trigger] lists@[j], j),
            renderer.scope() is None,
            renderer.recorded().len() == 0,
            renderer.viewport_spec() == old(renderer).viewport_spec(),
            n == old(layer_stack).layers().len(),
            layer_stack.layers().len() == n,
            layer_stack.history() == old(layer_stack).history() + rounds(
                i as nat,
                n,
                LayerCallback::Render,
            ),
        decreases framebuffer_count - i,
    {
        let ghost before = layer_stack.history();
        renderer.begin(i, clear_color);
        let ghost opened = renderer.recorded();
        layer_stack.render_all(renderer);
        let ghost drawn = renderer.recorded();
        renderer.end();
        let list = renderer.submit();
        proof {
            assert(opened.is_prefix_of(drawn));
            assert(drawn[0] == opened[0]);
            assert(list.commands@ == drawn.push(RenderCommand::EndRenderPass));
            assert(rounds((i + 1) as nat, n, LayerCallback::Render) == rounds(
                i as nat,
                n,
                LayerCallback::Render,
            ) + round(n, LayerCallback::Render));
            assert(old(layer_stack).history() + rounds((i + 1) as nat, n, LayerCallback::Render)
                =~= before + round(n, LayerCallback::Render));
        }
        lists.push(list);
        i += 1;
    }
    lists
}

/// What the caller of `window_event` has to do next.
#[derive(Debug, Clone, Copy, PartialEq, Eq, Structural)]
pub enum EventResponse {
    /// Nothing more for this event.
    Continue,
    /// Carry out the plan, then acquire, submit and present a frame, then ask
    /// the window for another redraw.
    Redraw(RecreationPlan),
    /// Stop the event loop.
    Exit,
}

/// The event-driven frame loop: layers, physics carry, the flags that call
/// for swapchain recreation, and, once graphics have started, the command
/// recorder and the presentation resources.
///
/// The loop makes every decision; its caller performs the window and GPU
/// work that a decision asks for and reports back what happened.
pub struct Application<L, I, F> {
    layer_stack: LayerStack<L>,
    accumulated_time: u64,
    initialized: bool,
    closed: bool,
    present: PresentState,
    renderer: Option<Renderer>,
    context: Option<GraphicsContext<I, F>>,
}

/// The history after one tick: the physics steps, then one update round.
pub open spec fn ticked(
    history: Seq<Dispatch>,
    n: int,
    accumulated: u64,
    elapsed: u64,
) -> Seq<Dispatch> {
    history + rounds(
        steps_for(carried(accumulated, elapsed)) as nat,
        n,
        LayerCallback::PhysicsUpdate(physics_delta()),
    ) + round(n, LayerCallback::Update(DeltaTime { nanos: elapsed as i64 }))
}

impl<L: Layer, I, F> Application<L, I, F> {
    pub closed spec fn stack(&self) -> LayerStack<L> {
        self.layer_stack
    }

    pub closed spec fn accumulated(&self) -> u64 {
        self.accumulated_time
    }

    pub closed spec fn initialized(&self) -> bool {
        self.initialized
    }

    pub closed spec fn closed(&self) -> bool {
        self.closed
    }

    pub closed spec fn present(&self) -> PresentState {
        self.present
    }

    /// Whether the recorder and the presentation resources exist.
    pub closed spec fn started(&self) -> bool {
        self.context is Some
    }

    pub closed spec fn renderer_spec(&self) -> Renderer {
        self.renderer->Some_0
    }

    pub closed spec fn context_spec(&self) -> GraphicsContext<I, F> {
        self.context->Some_0
    }

    /// The recorder and the resources come together; between operations no
    /// scope is open and nothing is pending in the recorder; once started,
    /// there is one framebuffer and one command list per image.
    pub closed spec fn wf(&self) -> bool {
        &&& (self.renderer is Some <==> self.context is Some)
        &&& self.renderer is Some ==> {
            &&& self.renderer->Some_0.scope() is None
            &&& self.renderer->Some_0.recorded().len() == 0
        }
        &&& self.context is Some ==> {
            let c = self.context->Some_0;
            &&& c.wf()
            &&& c.command_lists().len() == c.images().len()
        }
    }

    pub fn new() -> (r: Self)
        ensures
            r.wf(),
            r.stack().layers().len() == 0,
            r.stack().history().len() == 0,
            r.accumulated() == 0,
            !r.initialized(),
            !r.closed(),
            !r.started(),
            r.present() == (PresentState { window_resized: false, recreate_swapchain: false }),
    {
        Application {
            layer_stack: LayerStack::new(),
            accumulated_time: 0,
            initialized: false,
            closed: false,
            present: PresentState::new(),
            renderer: None,
            context: None,
        }
    }

    pub fn push_layer(&mut self, layer: L)
        requires
            old(self).wf(),
        ensures
            final(self).wf(),
            final(self).stack().layers() == old(self).stack().layers().push(layer),
            final(self).stack().history() == old(self).stack().history(),
            final(self).accumulated() == old(self).accumulated(),
            final(self).initialized() == old(self).initialized(),
            final(self).closed() == old(self).closed(),
            final(self).started() == old(self).started(),
            final(self).present() == old(self).present(),
    {
        self.layer_stack.push(layer);
    }

    pub fn layer_stack(&self) -> (r: &LayerStack<L>)
        ensures
            *r == self.stack(),
    {
        &self.layer_stack
    }

    pub fn is_closed(&self) -> (r: bool)
        ensures
            r == self.closed(),
    {
        self.closed
    }

    pub fn is_started(&self) -> (r: bool)
        ensures
            r == self.started(),
    {
        self.context.is_some()
    }

    pub fn present_state(&self) -> (r: PresentState)
        ensures
            r == self.present(),
    {
        self.present
    }

    pub fn accumulated_time(&self) -> (r: u64)
        ensures
            r == self.accumulated(),
    {
        self.accumulated_time
    }

    /// The first resume readies every layer once and returns `true`: the
    /// caller then creates the window and the device and calls
    /// `start_graphics`. Later resumes do nothing and return `false`.
    pub fn resumed(&mut self) -> (first: bool)
        requires
            old(self).wf(),
        ensures
            final(self).wf(),
            first == !old(self).initialized(),
            final(self).initialized(),
            final(self).stack().layers().len() == old(self).stack().layers().len(),
            final(self).stack().history() == if first {
                old(self).stack().history() + round(
                    old(self).stack().layers().len() as int,
                    LayerCallback::Ready,
                )
            } else {
                old(self).stack().history()
            },
            final(self).accumulated() == old(self).accumulated(),
            final(self).closed() == old(self).closed(),
            final(self).started() == old(self).started(),
            final(self).present() == old(self).present(),
    {
        if self.initialized {
            return false;
        }
        self.initialized = true;
        self.layer_stack.ready_all();
        true
    }
}

impl<L: Layer, I, F> Application<L, I, F> {
    /// Creates the recorder, with a pipeline for the swapchain's extent, and
    /// takes the first swapchain's images and framebuffers; then records one
    /// command list per framebuffer. Fails, changing nothing, when the counts
    /// of images and framebuffers differ.
    pub fn start_graphics(&mut self, config: SwapchainConfig, images: Vec<I>, framebuffers: Vec<F>) -> (r:
        Result<(), GraphicsError>)
        requires
            old(self).wf(),
            !old(self).started(),
        ensures
            final(self).wf(),
            r is Ok <==> images@.len() == framebuffers@.len(),
            r is Err ==> *final(self) == *old(self) && r->Err_0 == (
            GraphicsError::FramebufferCountMismatch {
                images: images@.len() as usize,
                framebuffers: framebuffers@.len() as usize,
            }),
            r is Ok ==> {
                let c = final(self).context_spec();
                &&& final(self).started()
                &&& c.config_spec() == config
                &&& c.images() == images@
                &&& c.framebuffers() == framebuffers@
                &&& c.command_lists().len() == images@.len()
                &&& forall|i: int|
                    0 <= i < images@.len() ==> is_frame_recording(
                        #[trigger] c.command_lists()[i],
                        i,
                    )
                &&& final(self).renderer_spec().viewport_spec() == config.extent
                &&& final(self).stack().history() == old(self).stack().history() + rounds(
                    images@.len(),
                    old(self).stack().layers().len() as int,
                    LayerCallback::Render,
                )
            },
            final(self).stack().layers().len() == old(self).stack().layers().len(),
            final(self).accumulated() == old(self).accumulated(),
            final(self).initialized() == old(self).initialized(),
            final(self).closed() == old(self).closed(),
            final(self).present() == old(self).present(),
    {
        let mut context = match GraphicsContext::new(config, images, framebuffers) {
            Ok(c) => c,
            Err(e) => {
                return Err(e);
            },
        };
        let mut renderer = Renderer::new(config.extent);
        let count = context.image_count();
        let lists = build_command_lists(&mut renderer, &mut self.layer_stack, count);
        context.set_command_lists(lists);
        self.renderer = Some(renderer);
        self.context = Some(context);
        Ok(())
    }

    /// Handles one window event, `elapsed` nanoseconds after the previous one.
    ///
    /// Every event first advances the fixed-step physics and then hands the
    /// elapsed time to every layer's `on_update`. Then: a close request calls
    /// every layer's `on_close`, empties the stack and ends the loop; a redraw
    /// request takes the pending recreation plan; a resize to a non-zero size
    /// flags recreation; resizes and input events go to every layer's
    /// `on_event`. After the loop has ended, events are ignored.
    pub fn window_event(&mut self, event: WindowEvent, elapsed: u64) -> (r: EventResponse)
        requires
            old(self).wf(),
            elapsed <= i64::MAX,
        ensures
            final(self).wf(),
            final(self).started() == old(self).started(),
            final(self).initialized() == old(self).initialized(),
            old(self).started() ==> final(self).context_spec() == old(self).context_spec()
                && final(self).renderer_spec() == old(self).renderer_spec(),
            old(self).closed() ==> r == EventResponse::Exit && *final(self) == *old(self),
            !old(self).closed() ==> {
                let n = old(self).stack().layers().len() as int;
                let h = ticked(old(self).stack().history(), n, old(self).accumulated(), elapsed);
                &&& final(self).accumulated() as int == remainder_for(
                    carried(old(self).accumulated(), elapsed),
                )
                &&& match event {
                    WindowEvent::CloseRequested => {
                        &&& r == EventResponse::Exit
                        &&& final(self).closed()
                        &&& final(self).stack().layers().len() == 0
                        &&& final(self).stack().history() == h + round(n, LayerCallback::Close)
                        &&& final(self).present() == old(self).present()
                    },
                    WindowEvent::RedrawRequested => {
                        &&& r == EventResponse::Redraw(plan_for(old(self).present()))
                        &&& !final(self).closed()
                        &&& final(self).stack().layers().len() == n
                        &&& final(self).stack().history() == h
                        &&& final(self).present() == (PresentState {
                            window_resized: false,
                            recreate_swapchain: false,
                        })
                    },
                    WindowEvent::Resized { width, height } => {
                        &&& r == EventResponse::Continue
                        &&& !final(self).closed()
                        &&& final(self).stack().layers().len() == n
                        &&& final(self).stack().history() == h + round(
                            n,
                            LayerCallback::Event(event),
                        )
                        &&& final(self).present() == resized(old(self).present(), width, height)
                    },
                    _ => {
                        &&& r == EventResponse::Continue
                        &&& !final(self).closed()
                        &&& final(self).stack().layers().len() == n
                        &&& final(self).stack().history() == if event.is_forwarded() {
                            h + round(n, LayerCallback::Event(event))
                        } else {
                            h
                        }
                        &&& final(self).present() == old(self).present()
                    },
                }
            },
    {
        if self.closed {
            return EventResponse::Exit;
        }
        physics_update(&mut self.layer_stack, elapsed, &mut self.accumulated_time);
        update(&mut self.layer_stack, elapsed);
        match event {
            WindowEvent::CloseRequested => {
                self.layer_stack.close_all();
                self.layer_stack.clear();
                self.closed = true;
                EventResponse::Exit
            },
            WindowEvent::RedrawRequested => EventResponse::Redraw(self.present.take_plan()),
            WindowEvent::Resized { width, height } => {
                self.present.on_resize(width, height);
                self.layer_stack.event_all(event);
                EventResponse::Continue
            },
            WindowEvent::CursorMoved { .. }
            | WindowEvent::MouseInput { .. }
            | WindowEvent::KeyboardInput { .. } => {
                self.layer_stack.event_all(event);
                EventResponse::Continue
            },
            WindowEvent::Other => EventResponse::Continue,
        }
    }
}

impl<L: Layer, I, F> Application<L, I, F> {
    /// The recorder; it exists once graphics have started.
    pub fn renderer(&self) -> (r: &Renderer)
        requires
            self.started(),
            self.wf(),
        ensures
            *r == self.renderer_spec(),
    {
        self.renderer.as_ref().unwrap()
    }

    /// The presentation resources; they exist once graphics have started.
    pub fn context(&self) -> (r: &GraphicsContext<I, F>)
        requires
            self.started(),
        ensures
            *r == self.context_spec(),
    {
        self.context.as_ref().unwrap()
    }

    /// The configuration to recreate the swapchain with for a window of size
    /// `extent`: the current one with only the extent replaced.
    pub fn next_swapchain_config(&self, extent: Extent) -> (r: SwapchainConfig)
        requires
            self.started(),
        ensures
            r == (SwapchainConfig { extent, ..self.context_spec().config_spec() }),
    {
        recreated_config(&self.context.as_ref().unwrap().config(), extent)
    }

    /// Installs a recreated swapchain's images and framebuffers together,
    /// rebuilds the pipeline for the new extent when `plan` asks for it, and
    /// records a fresh command list for every framebuffer. Fails, changing
    /// nothing, when the counts of images and framebuffers differ.
    pub fn recreate_swapchain(
        &mut self,
        plan: RecreationPlan,
        config: SwapchainConfig,
        images: Vec<I>,
        framebuffers: Vec<F>,
    ) -> (r: Result<(), GraphicsError>)
        requires
            old(self).wf(),
            old(self).started(),
        ensures
            final(self).wf(),
            final(self).started(),
            r is Ok <==> images@.len() == framebuffers@.len(),
            r is Err ==> *final(self) == *old(self) && r->Err_0 == (
            GraphicsError::FramebufferCountMismatch {
                images: images@.len() as usize,
                framebuffers: framebuffers@.len() as usize,
            }),
            r is Ok ==> {
                let c = final(self).context_spec();
                &&& c.config_spec() == config
                &&& c.images() == images@
                &&& c.framebuffers() == framebuffers@
                &&& c.framebuffers().len() == c.images().len()
                &&& c.command_lists().len() == c.images().len()
                &&& forall|i: int|
                    0 <= i < images@.len() ==> is_frame_recording(
                        #[trigger] c.command_lists()[i],
                        i,
                    )
                &&& final(self).renderer_spec().viewport_spec() == if plan.recreate_pipeline {
                    config.extent
                } else {
                    old(self).renderer_spec().viewport_spec()
                }
                &&& final(self).stack().history() == old(self).stack().history() + rounds(
                    images@.len(),
                    old(self).stack().layers().len() as int,
                    LayerCallback::Render,
                )
            },
            final(self).stack().layers().len() == old(self).stack().layers().len(),
            final(self).accumulated() == old(self).accumulated(),
            final(self).initialized() == old(self).initialized(),
            final(self).closed() == old(self).closed(),
            final(self).present() == old(self).present(),
    {
        match (&mut self.context, &mut self.renderer) {
            (Some(context), Some(renderer)) => {
                match context.install(config, images, framebuffers) {
                    Ok(()) => {},
                    Err(e) => {
                        return Err(e);
                    },
                }
                if plan.recreate_pipeline {
                    renderer.recreate_pipeline(config.extent);
                }
                let count = context.image_count();
                let lists = build_command_lists(renderer, &mut self.layer_stack, count);
                context.set_command_lists(lists);
                Ok(())
            },
            _ => Ok(()),
        }
    }

    /// Decides what to do with the result of acquiring the next image: submit
    /// the command list of that index, drop the frame and flag recreation, or
    /// abort.
    pub fn on_acquire(&mut self, outcome: AcquireOutcome) -> (r: FrameAction)
        requires
            old(self).wf(),
            old(self).started(),
        ensures
            final(self).wf(),
            r == acquire_action(outcome, old(self).context_spec().images().len() as int),
            r is Submit ==> (r->image_index as int) < old(
                self,
            ).context_spec().command_lists().len(),
            final(self).present() == (PresentState {
                recreate_swapchain: old(self).present().recreate_swapchain || acquire_is_stale(
                    outcome,
                ),
                ..old(self).present()
            }),
            final(self).stack() == old(self).stack(),
            final(self).started(),
            final(self).context_spec() == old(self).context_spec(),
            final(self).renderer_spec() == old(self).renderer_spec(),
            final(self).accumulated() == old(self).accumulated(),
            final(self).initialized() == old(self).initialized(),
            final(self).closed() == old(self).closed(),
    {
        let count = self.context.as_ref().unwrap().image_count();
        self.present.on_acquire(outcome, count)
    }

    /// Decides what to do once the wait for a submitted frame has returned.
    pub fn on_flush(&mut self, outcome: FlushOutcome) -> (r: FlushAction)
        requires
            old(self).wf(),
        ensures
            final(self).wf(),
            r == flush_action(outcome),
            final(self).present() == (PresentState {
                recreate_swapchain: old(self).present().recreate_swapchain || outcome
                    == FlushOutcome::OutOfDate,
                ..old(self).present()
            }),
            final(self).stack() == old(self).stack(),
            final(self).started() == old(self).started(),
            final(self).context_spec() == old(self).context_spec(),
            final(self).renderer_spec() == old(self).renderer_spec(),
            final(self).accumulated() == old(self).accumulated(),
            final(self).initialized() == old(self).initialized(),
            final(self).closed() == old(self).closed(),
    {
        self.present.on_flush(outcome)
    }
}

} // verus!
