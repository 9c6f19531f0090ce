use vstd::prelude::*;
use crate::event::Extent;

verus! {

/// An RGBA colour with eight bits per channel.
#[derive(Debug, Clone, Copy, PartialEq, Eq, Structural)]
pub struct ClearColor {
    pub r: u8,
    pub g: u8,
    pub b: u8,
    pub a: u8,
}

/// One recorded instruction for the GPU.
#[derive(Debug, Clone, Copy, PartialEq, Eq, Structural)]
pub enum RenderCommand {
    /// Open a render pass on the framebuffer of that index, clearing it first.
    BeginRenderPass { framebuffer: usize, clear_color: ClearColor },
    /// Bind the triangle pipeline built for `viewport` and draw its three vertices.
    DrawTriangle { viewport: Extent },
    /// Close the open render pass.
    EndRenderPass,
}

/// A finished, replayable recording: the executable unit handed to the queue.
#[derive(Debug, Clone)]
pub struct CommandList {
    pub commands: Vec<RenderCommand>,
}

/// Records GPU commands into one reusable builder.
///
/// At most one render-pass scope is open at a time. The pipeline's viewport
/// is part of its state, so rebuilding the pipeline means changing it.
pub struct Renderer {
    viewport: Extent,
    commands: Vec<RenderCommand>,
    target: Option<usize>,
}

impl Renderer {
    /// The viewport that the current pipeline was built for.
    pub closed spec fn viewport_spec(&self) -> Extent {
        self.viewport
    }

    /// What has been recorded since the last `submit`.
    pub closed spec fn recorded(&self) -> Seq<RenderCommand> {
        self.commands@
    }

    /// The framebuffer of the open scope, if one is open.
    pub closed spec fn scope(&self) -> Option<usize> {
        self.target
    }

    /// A recorder with an empty builder and a pipeline for `viewport`.
    pub fn new(viewport: Extent) -> (r: Renderer)
        ensures
            r.viewport_spec() == viewport,
            r.recorded() == Seq::<RenderCommand>::empty(),
            r.scope() is None,
    {
        Renderer { viewport, commands: Vec::new(), target: None }
    }

    pub fn viewport(&self) -> (r: Extent)
        ensures
            r == self.viewport_spec(),
    {
        self.viewport
    }

    pub fn is_recording(&self) -> (r: bool)
        ensures
            r == self.scope() is Some,
    {
        self.target.is_some()
    }

    /// Opens a render-pass scope on `framebuffer`, cleared to `clear_color`.
    pub fn begin(&mut self, framebuffer: usize, clear_color: ClearColor)
        requires
            old(self).scope() is None,
        ensures
            final(self).scope() == Some(framebuffer),
            final(self).recorded() == old(self).recorded().push(
                RenderCommand::BeginRenderPass { framebuffer, clear_color },
            ),
            final(self).viewport_spec() == old(self).viewport_spec(),
    {
        self.commands.push(RenderCommand::BeginRenderPass { framebuffer, clear_color });
        self.target = Some(framebuffer);
    }

    /// Records a draw of the triangle with the current pipeline.
    pub fn draw_triangle(&mut self)
        requires
            old(self).scope() is Some,
        ensures
            final(self).scope() == old(self).scope(),
            final(self).recorded() == old(self).recorded().push(
                RenderCommand::DrawTriangle { viewport: old(self).viewport_spec() },
            ),
            final(self).viewport_spec() == old(self).viewport_spec(),
    {
        self.commands.push(RenderCommand::DrawTriangle { viewport: self.viewport });
    }

    /// Closes the open scope.
    pub fn end(&mut self)
        requires
            old(self).scope() is Some,
        ensures
            final(self).scope() is None,
            final(self).recorded() == old(self).recorded().push(RenderCommand::EndRenderPass),
            final(self).viewport_spec() == old(self).viewport_spec(),
    {
        self.commands.push(RenderCommand::EndRenderPass);
        self.target = None;
    }

    /// Finishes the recording and starts a fresh, empty one.
    pub fn submit(&mut self) -> (r: CommandList)
        requires
            old(self).scope() is None,
        ensures
            r.commands@ == old(self).recorded(),
            final(self).recorded() == Seq::<RenderCommand>::empty(),
            final(self).scope() is None,
            final(self).viewport_spec() == old(self).viewport_spec(),
    {
        let mut commands: Vec<RenderCommand> = Vec::new();
        std::mem::swap(&mut commands, &mut self.commands);
        CommandList { commands }
    }

    /// Rebuilds the pipeline for a new viewport.
    pub fn recreate_pipeline(&mut self, viewport: Extent)
        ensures
            final(self).viewport_spec() == viewport,
            final(self).recorded() == old(self).recorded(),
            final(self).scope() == old(self).scope(),
    {
        self.viewport = viewport;
    }
}

} // verus!
