use vstd::prelude::*;
use crate::event::Extent;
use crate::renderer::CommandList;

verus! {

/// The pixel format of the presentable images.
#[derive(Debug, Clone, Copy, PartialEq, Eq, Structural)]
pub enum ImageFormat {
    /// Four 8-bit unsigned normalised channels: red, green, blue, alpha.
    R8G8B8A8Unorm,
}

/// How finished images are queued for display.
#[derive(Debug, Clone, Copy, PartialEq, Eq, Structural)]
pub enum PresentMode {
    /// First in, first out: no tearing, bounded latency.
    Fifo,
}

/// The shape of a swapchain: what it is created or recreated with.
#[derive(Debug, Clone, Copy, PartialEq, Eq, Structural)]
pub struct SwapchainConfig {
    pub format: ImageFormat,
    pub present_mode: PresentMode,
    pub extent: Extent,
}

/// The configuration of a new swapchain for a window of size `extent`:
/// a fixed format and FIFO presentation.
pub fn swapchain_config(extent: Extent) -> (r: SwapchainConfig)
    ensures
        r == (SwapchainConfig {
            format: ImageFormat::R8G8B8A8Unorm,
            present_mode: PresentMode::Fifo,
            extent,
        }),
{
    SwapchainConfig { format: ImageFormat::R8G8B8A8Unorm, present_mode: PresentMode::Fifo, extent }
}

/// The configuration to recreate with: the previous one, with only the
/// extent replaced.
pub fn recreated_config(previous: &SwapchainConfig, extent: Extent) -> (r: SwapchainConfig)
    ensures
        r == (SwapchainConfig { extent, ..*previous }),
{
    SwapchainConfig { extent, ..*previous }
}

/// Why a set of presentation resources was not accepted.
#[derive(Debug, Clone, Copy, PartialEq, Eq, Structural)]
pub enum GraphicsError {
    /// The number of framebuffers differs from the number of images.
    FramebufferCountMismatch { images: usize, framebuffers: usize },
}

/// The presentation resources: the swapchain's configuration, its images in
/// presentation-index order, one framebuffer per image in the same order,
/// and, once recorded, one command list per image.
///
/// `I` and `F` are the handle types of images and framebuffers.
pub struct GraphicsContext<I, F> {
    config: SwapchainConfig,
    images: Vec<I>,
    framebuffers: Vec<F>,
    command_lists: Vec<CommandList>,
}

impl<I, F> GraphicsContext<I, F> {
    pub closed spec fn config_spec(&self) -> SwapchainConfig {
        self.config
    }

    pub closed spec fn images(&self) -> Seq<I> {
        self.images@
    }

    pub closed spec fn framebuffers(&self) -> Seq<F> {
        self.framebuffers@
    }

    pub closed spec fn command_lists(&self) -> Seq<CommandList> {
        self.command_lists@
    }

    /// One framebuffer per image, and one command list per image once they
    /// have been recorded.
    pub open spec fn wf(&self) -> bool {
        &&& self.framebuffers().len() == self.images().len()
        &&& (self.command_lists().len() == 0 || self.command_lists().len()
            == self.images().len())
    }

    /// A context for a freshly made swapchain; its command lists are not
    /// recorded yet.
    pub fn new(config: SwapchainConfig, images: Vec<I>, framebuffers: Vec<F>) -> (r: Result<
        GraphicsContext<I, F>,
        GraphicsError,
    >)
        ensures
            images@.len() == framebuffers@.len() <==> r is Ok,
            r is Ok ==> {
                let c = r->Ok_0;
                &&& c.wf()
                &&& c.config_spec() == config
                &&& c.images() == images@
                &&& c.framebuffers() == framebuffers@
                &&& c.command_lists().len() == 0
            },
            r is Err ==> r->Err_0 == (GraphicsError::FramebufferCountMismatch {
                images: images@.len() as usize,
                framebuffers: framebuffers@.len() as usize,
            }),
    {
        if images.len() != framebuffers.len() {
            return Err(
                GraphicsError::FramebufferCountMismatch {
                    images: images.len(),
                    framebuffers: framebuffers.len(),
                },
            );
        }
        Ok(GraphicsContext { config, images, framebuffers, command_lists: Vec::new() })
    }

    /// Replaces the swapchain's configuration, images and framebuffers
    /// together. The command lists recorded for the old ones are dropped.
    pub fn install(&mut self, config: SwapchainConfig, images: Vec<I>, framebuffers: Vec<F>) -> (r:
        Result<(), GraphicsError>)
        ensures
            images@.len() == framebuffers@.len() <==> r is Ok,
            r is Ok ==> {
                &&& final(self).config_spec() == config
                &&& final(self).images() == images@
                &&& final(self).framebuffers() == framebuffers@
                &&& final(self).command_lists().len() == 0
            },
            r is Err ==> *final(self) == *old(self) && r->Err_0 == (
            GraphicsError::FramebufferCountMismatch {
                images: images@.len() as usize,
                framebuffers: framebuffers@.len() as usize,
            }),
    {
        if images.len() != framebuffers.len() {
            return Err(
                GraphicsError::FramebufferCountMismatch {
                    images: images.len(),
                    framebuffers: framebuffers.len(),
                },
            );
        }
        self.config = config;
        self.images = images;
        self.framebuffers = framebuffers;
        self.command_lists = Vec::new();
        Ok(())
    }

    /// Stores the command lists recorded for the current framebuffers.
    pub fn set_command_lists(&mut self, lists: Vec<CommandList>)
        requires
            lists@.len() == old(self).images().len(),
        ensures
            final(self).command_lists() == lists@,
            final(self).config_spec() == old(self).config_spec(),
            final(self).images() == old(self).images(),
            final(self).framebuffers() == old(self).framebuffers(),
    {
        self.command_lists = lists;
    }

    pub fn config(&self) -> (r: SwapchainConfig)
        ensures
            r == self.config_spec(),
    {
        self.config
    }

    pub fn image_count(&self) -> (r: usize)
        ensures
            r == self.images().len(),
    {
        self.images.len()
    }

    pub fn framebuffer(&self, i: usize) -> (r: &F)
        requires
            i < self.framebuffers().len(),
        ensures
            *r == self.framebuffers()[i as int],
    {
        &self.framebuffers[i]
    }

    pub fn image(&self, i: usize) -> (r: &I)
        requires
            i < self.images().len(),
        ensures
            *r == self.images()[i as int],
    {
        &self.images[i]
    }

    pub fn command_list_count(&self) -> (r: usize)
        ensures
            r == self.command_lists().len(),
    {
        self.command_lists.len()
    }

    pub fn command_list(&self, i: usize) -> (r: &CommandList)
        requires
            i < self.command_lists().len(),
        ensures
            *r == self.command_lists()[i as int],
    {
        &self.command_lists[i]
    }
}

} // verus!
