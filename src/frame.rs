use vstd::prelude::*;

verus! {

/// What acquiring the next presentable image reported.
#[derive(Debug, Clone, Copy, PartialEq, Eq, Structural)]
pub enum AcquireOutcome {
    /// An image was acquired; `suboptimal` says the surface no longer matches
    /// the swapchain exactly.
    Acquired { image_index: u32, suboptimal: bool },
    /// The surface is out of date: the swapchain must be recreated.
    OutOfDate,
    /// Any other failure.
    Failed,
}

/// What waiting for a submitted frame to complete reported.
#[derive(Debug, Clone, Copy, PartialEq, Eq, Structural)]
pub enum FlushOutcome {
    Completed,
    OutOfDate,
    Failed,
}

/// What to do with an acquired image.
#[derive(Debug, Clone, Copy, PartialEq, Eq, Structural)]
pub enum FrameAction {
    /// Wait for the image, run the command buffer of this index on it,
    /// present it, and wait for completion.
    Submit { image_index: usize },
    /// Drop this frame; the swapchain is recreated at the next redraw.
    Skip,
    /// Unrecoverable: the caller aborts.
    Fatal,
}

/// What to do once the completion wait has returned.
#[derive(Debug, Clone, Copy, PartialEq, Eq, Structural)]
pub enum FlushAction {
    /// The frame was presented.
    Done,
    /// The frame was stale; the swapchain is recreated at the next redraw.
    Stale,
    /// The frame failed otherwise: log the error and go on.
    LogAndSkip,
}

/// The work that a redraw has to do before it submits a frame.
#[derive(Debug, Clone, Copy, PartialEq, Eq, Structural)]
pub struct RecreationPlan {
    /// Rebuild the swapchain, its framebuffers and the command buffers.
    pub recreate_swapchain: bool,
    /// Also rebuild the pipeline for the new window size.
    pub recreate_pipeline: bool,
}

/// The two reasons for recreating the swapchain, kept until the next redraw.
#[derive(Debug, Clone, Copy, PartialEq, Eq, Structural)]
pub struct PresentState {
    /// The window got a new, non-zero size.
    pub window_resized: bool,
    /// Presentation reported the swapchain stale or suboptimal.
    pub recreate_swapchain: bool,
}

/// The plan that the flags in `s` call for.
pub open spec fn plan_for(s: PresentState) -> RecreationPlan {
    RecreationPlan {
        recreate_swapchain: s.window_resized || s.recreate_swapchain,
        recreate_pipeline: s.window_resized,
    }
}

/// The action for an acquisition result on a swapchain of `image_count` images.
pub open spec fn acquire_action(outcome: AcquireOutcome, image_count: int) -> FrameAction {
    match outcome {
        AcquireOutcome::Acquired { image_index, suboptimal } => if suboptimal {
            FrameAction::Skip
        } else if image_index < image_count {
            FrameAction::Submit { image_index: image_index as usize }
        } else {
            FrameAction::Fatal
        },
        AcquireOutcome::OutOfDate => FrameAction::Skip,
        AcquireOutcome::Failed => FrameAction::Fatal,
    }
}

/// Whether an acquisition result calls for recreating the swapchain.
pub open spec fn acquire_is_stale(outcome: AcquireOutcome) -> bool {
    match outcome {
        AcquireOutcome::Acquired { suboptimal, .. } => suboptimal,
        AcquireOutcome::OutOfDate => true,
        AcquireOutcome::Failed => false,
    }
}

/// The action for a completion result.
pub open spec fn flush_action(outcome: FlushOutcome) -> FlushAction {
    match outcome {
        FlushOutcome::Completed => FlushAction::Done,
        FlushOutcome::OutOfDate => FlushAction::Stale,
        FlushOutcome::Failed => FlushAction::LogAndSkip,
    }
}

/// The flags after a resize to `width` by `height`.
pub open spec fn resized(s: PresentState, width: u32, height: u32) -> PresentState {
    PresentState { window_resized: s.window_resized || (width > 0 && height > 0), ..s }
}

/// A resize to a zero width or height (a minimised window) leaves the flags,
/// and so the next redraw's recreation plan, as they were.
pub proof fn lemma_zero_resize_is_ignored(s: PresentState, width: u32, height: u32)
    requires
        width == 0 || height == 0,
    ensures
        resized(s, width, height) == s,
        plan_for(resized(s, width, height)) == plan_for(s),
{
}

impl PresentState {
    pub fn new() -> (r: PresentState)
        ensures
            !r.window_resized,
            !r.recreate_swapchain,
    {
        PresentState { window_resized: false, recreate_swapchain: false }
    }

    /// Notes a window resize. A zero dimension (a minimised window) is ignored.
    pub fn on_resize(&mut self, width: u32, height: u32)
        ensures
            *final(self) == resized(*old(self), width, height),
    {
        if width > 0 && height > 0 {
            self.window_resized = true;
        }
    }

    /// Decides what to do with the result of an acquisition, for a swapchain
    /// of `image_count` images. Stale and suboptimal results drop the frame
    /// and flag recreation; an index outside the swapchain is a failure.
    pub fn on_acquire(&mut self, outcome: AcquireOutcome, image_count: usize) -> (r: FrameAction)
        ensures
            r == acquire_action(outcome, image_count as int),
            final(self).recreate_swapchain == (old(self).recreate_swapchain
                || acquire_is_stale(outcome)),
            final(self).window_resized == old(self).window_resized,
    {
        match outcome {
            AcquireOutcome::Acquired { image_index, suboptimal } => {
                if suboptimal {
                    self.recreate_swapchain = true;
                    FrameAction::Skip
                } else if (image_index as usize) < image_count {
                    FrameAction::Submit { image_index: image_index as usize }
                } else {
                    FrameAction::Fatal
                }
            },
            AcquireOutcome::OutOfDate => {
                self.recreate_swapchain = true;
                FrameAction::Skip
            },
            AcquireOutcome::Failed => FrameAction::Fatal,
        }
    }

    /// Decides what to do with the result of the completion wait.
    pub fn on_flush(&mut self, outcome: FlushOutcome) -> (r: FlushAction)
        ensures
            r == flush_action(outcome),
            final(self).recreate_swapchain == (old(self).recreate_swapchain || outcome
                == FlushOutcome::OutOfDate),
            final(self).window_resized == old(self).window_resized,
    {
        match outcome {
            FlushOutcome::Completed => FlushAction::Done,
            FlushOutcome::OutOfDate => {
                self.recreate_swapchain = true;
                FlushAction::Stale
            },
            FlushOutcome::Failed => FlushAction::LogAndSkip,
        }
    }

    /// Takes the pending recreation work: the plan that the flags call for,
    /// with both flags cleared.
    pub fn take_plan(&mut self) -> (r: RecreationPlan)
        ensures
            r == plan_for(*old(self)),
            !final(self).window_resized,
            !final(self).recreate_swapchain,
    {
        let plan = RecreationPlan {
            recreate_swapchain: self.window_resized || self.recreate_swapchain,
            recreate_pipeline: self.window_resized,
        };
        self.window_resized = false;
        self.recreate_swapchain = false;
        plan
    }
}

} // verus!
