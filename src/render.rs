use vstd::prelude::*;
use crate::font::RogueFontData;

verus! {

/// Where the render surface stands. It starts `Ready`; a lost surface makes it
/// `Degraded` until the swap chain is rebuilt; running out of memory ends it.
#[derive(Clone, Copy, Debug, PartialEq, Eq, Structural)]
pub enum SurfacePhase {
    Ready,
    Degraded,
    Terminated,
}

/// How submitting a frame went.
#[derive(Clone, Copy, Debug, PartialEq, Eq, Structural)]
pub enum FrameOutcome {
    /// The frame was acquired, drawn and submitted.
    Presented,
    /// The surface is stale and the swap chain must be rebuilt.
    Lost,
    /// The presentation backend ran out of memory.
    OutOfMemory,
    /// Any other failure: the frame is dropped.
    Failed,
}

/// What the loop does after a frame.
#[derive(Clone, Copy, Debug, PartialEq, Eq, Structural)]
pub enum FrameAction {
    /// Go on with the next iteration.
    Continue,
    /// Resize to the window's current size at once, then go on.
    Recover,
    /// Stop the loop.
    Exit,
    /// Report the failure and go on.
    Report,
}

/// The swap chain's size and the surface's phase. The size is the one the
/// window last reported; a swap chain exists only for a size of non-zero area.
#[derive(Clone, Copy, Debug, PartialEq, Eq, Structural)]
pub struct SurfaceLifecycle {
    pub width: u32,
    pub height: u32,
    pub phase: SurfacePhase,
}

impl SurfaceLifecycle {
    /// Whether the size has non-zero area, so that a swap chain can be built.
    pub open spec fn spec_has_area(&self) -> bool {
        self.width > 0 && self.height > 0
    }

    /// Whether a frame is to be drawn and submitted now.
    pub open spec fn spec_frame_due(&self) -> bool {
        self.phase == SurfacePhase::Ready && self.spec_has_area()
    }

    /// A surface set up at the window's initial size.
    pub fn new(width: u32, height: u32) -> (r: Self)
        ensures
            r.width == width,
            r.height == height,
            r.phase == SurfacePhase::Ready,
    {
        SurfaceLifecycle { width, height, phase: SurfacePhase::Ready }
    }

    /// Takes the window's new size. Returns whether the swap chain is to be
    /// rebuilt at that size: so it is, from scratch, for any size of non-zero
    /// area, which also ends a degraded phase. A zero-area size (a minimised
    /// window) is recorded and leaves the swap chain as it was. A terminated
    /// surface ignores resizing.
    pub fn resize(&mut self, width: u32, height: u32) -> (rebuild: bool)
        ensures
            rebuild == (old(self).phase != SurfacePhase::Terminated && width > 0 && height > 0),
            old(self).phase == SurfacePhase::Terminated ==> *final(self) == *old(self),
            old(self).phase != SurfacePhase::Terminated ==> final(self).width == width
                && final(self).height == height,
            final(self).phase == (if rebuild {
                SurfacePhase::Ready
            } else {
                old(self).phase
            }),
    {
        if self.phase == SurfacePhase::Terminated {
            return false;
        }
        self.width = width;
        self.height = height;
        let rebuild = width > 0 && height > 0;
        if rebuild {
            self.phase = SurfacePhase::Ready;
        }
        rebuild
    }

    /// Whether a frame is to be drawn and submitted now: only while ready and
    /// with a swap chain of non-zero area.
    pub fn frame_due(&self) -> (r: bool)
        ensures
            r == self.spec_frame_due(),
    {
        self.phase == SurfacePhase::Ready && self.width > 0 && self.height > 0
    }

    /// Takes the outcome of a submitted frame and says what the loop does next.
    pub fn frame_finished(&mut self, outcome: FrameOutcome) -> (action: FrameAction)
        ensures
            final(self).width == old(self).width,
            final(self).height == old(self).height,
            old(self).phase == SurfacePhase::Terminated ==> final(self).phase
                == SurfacePhase::Terminated && action == FrameAction::Exit,
            old(self).phase != SurfacePhase::Terminated ==> match outcome {
                FrameOutcome::Presented => final(self).phase == SurfacePhase::Ready && action
                    == FrameAction::Continue,
                FrameOutcome::Lost => final(self).phase == SurfacePhase::Degraded && action
                    == FrameAction::Recover,
                FrameOutcome::OutOfMemory => final(self).phase == SurfacePhase::Terminated
                    && action == FrameAction::Exit,
                FrameOutcome::Failed => final(self).phase == old(self).phase && action
                    == FrameAction::Report,
            },
    {
        if self.phase == SurfacePhase::Terminated {
            return FrameAction::Exit;
        }
        match outcome {
            FrameOutcome::Presented => {
                self.phase = SurfacePhase::Ready;
                FrameAction::Continue
            },
            FrameOutcome::Lost => {
                self.phase = SurfacePhase::Degraded;
                FrameAction::Recover
            },
            FrameOutcome::OutOfMemory => {
                self.phase = SurfacePhase::Terminated;
                FrameAction::Exit
            },
            FrameOutcome::Failed => FrameAction::Report,
        }
    }

    /// The grid that fills the surface: whole glyphs of the font across and down.
    pub fn grid_size(&self, font: &RogueFontData) -> (r: (u32, u32))
        ensures
            r == ((self.width / font.spec_width()) as u32, (self.height / font.spec_height()) as u32),
    {
        (self.width / font.width(), self.height / font.height())
    }
}

} // verus!
