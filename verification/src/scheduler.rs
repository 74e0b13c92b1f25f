//! Per-frame scheduling for both presentation paths.
//!
//! The host-visible path cycles through uniform upload, command recording,
//! submission and a fence wait; the swapchain path additionally acquires an
//! image before drawing and presents after, rotating through two frame
//! slots so the CPU can prepare one frame while the GPU executes the other.
//! The frame counter advances by exactly one per completed submit/present
//! cycle and never on a tick skipped because the swapchain was out of date.

use vstd::prelude::*;

verus! {

/// Frame slots rotated by the swapchain path: two, so the CPU may prepare
/// frame `i + 1` while the GPU still executes frame `i`.
pub const FRAMES_IN_FLIGHT: u64 = 2;

/// Phases of the host-visible frame cycle. There is no acquire or present:
/// the sink reads the mapped surface after the fence wait completes.
#[derive(Clone, Copy, Debug, PartialEq, Eq, Structural)]
pub enum HostPhase {
    Idle,
    UniformUpload,
    RecordCommands,
    Submit,
    WaitFence,
}

/// The successor phase in the host-visible cycle.
pub open spec fn spec_host_next(p: HostPhase) -> HostPhase {
    match p {
        HostPhase::Idle => HostPhase::UniformUpload,
        HostPhase::UniformUpload => HostPhase::RecordCommands,
        HostPhase::RecordCommands => HostPhase::Submit,
        HostPhase::Submit => HostPhase::WaitFence,
        HostPhase::WaitFence => HostPhase::Idle,
    }
}

/// Driver of the host-visible frame cycle. The single fence is waited on
/// before the cycle returns to idle, so the next uniform upload never
/// overwrites memory the GPU is still reading.
pub struct HostScheduler {
    pub phase: HostPhase,
    pub frame_count: u64,
}

impl HostScheduler {
    /// Starts idle with no frame completed.
    pub fn new() -> (s: Self)
        ensures
            s.phase == HostPhase::Idle,
            s.frame_count == 0,
    {
        HostScheduler { phase: HostPhase::Idle, frame_count: 0 }
    }

    /// Steps to the next phase of the cycle. Completing the fence wait ends
    /// a frame: only that step advances the frame counter, by exactly one.
    pub fn advance(&mut self)
        requires
            old(self).frame_count < 0xffff_ffff_ffff_ffffu64,
        ensures
            final(self).phase == spec_host_next(old(self).phase),
            final(self).frame_count == old(self).frame_count + (if old(self).phase
                == HostPhase::WaitFence {
                1int
            } else {
                0int
            }),
    {
        match self.phase {
            HostPhase::Idle => {
                self.phase = HostPhase::UniformUpload;
            },
            HostPhase::UniformUpload => {
                self.phase = HostPhase::RecordCommands;
            },
            HostPhase::RecordCommands => {
                self.phase = HostPhase::Submit;
            },
            HostPhase::Submit => {
                self.phase = HostPhase::WaitFence;
            },
            HostPhase::WaitFence => {
                self.phase = HostPhase::Idle;
                self.frame_count = self.frame_count + 1;
            },
        }
    }
}

/// What acquiring the next swapchain image reported.
#[derive(Clone, Copy, Debug, PartialEq, Eq, Structural)]
pub enum AcquireOutcome {
    /// An image is ready to be drawn into.
    Acquired(u32),
    /// An image was acquired but the swapchain no longer matches the
    /// surface exactly; drawing proceeds this tick.
    Suboptimal(u32),
    /// The swapchain is unusable: skip drawing and recreate.
    OutOfDate,
}

/// What presenting the finished image reported.
#[derive(Clone, Copy, Debug, PartialEq, Eq, Structural)]
pub enum PresentOutcome {
    Presented,
    Suboptimal,
    OutOfDate,
}

/// Scheduler state for the swapchain path: the current frame slot, the
/// count of completed frames, and whether the swapchain must be recreated
/// before the next tick draws.
#[derive(Clone, Copy, Debug, PartialEq, Eq, Structural)]
pub struct FrameScheduler {
    pub slot: u64,
    pub frame_count: u64,
    pub recreate_needed: bool,
}

/// The scheduler after the acquire step: an out-of-date acquire skips the
/// tick (the counter and slot stay, recreation is flagged); any acquired
/// image leaves the state unchanged until the frame completes.
pub open spec fn spec_begin_frame(s: FrameScheduler, a: AcquireOutcome) -> FrameScheduler {
    match a {
        AcquireOutcome::OutOfDate => FrameScheduler { recreate_needed: true, ..s },
        _ => s,
    }
}

/// The scheduler after a completed submit/present cycle: the counter
/// advances by exactly one, the slot rotates, and an out-of-date or
/// suboptimal present flags recreation.
pub open spec fn spec_complete_frame(s: FrameScheduler, p: PresentOutcome) -> FrameScheduler {
    FrameScheduler {
        slot: (((s.slot + 1) as int % (FRAMES_IN_FLIGHT as int))) as u64,
        frame_count: (s.frame_count + 1) as u64,
        recreate_needed: s.recreate_needed || p != PresentOutcome::Presented,
    }
}

impl FrameScheduler {
    pub open spec fn well_formed(self) -> bool {
        self.slot < FRAMES_IN_FLIGHT
    }

    /// Starts at slot zero with no frame completed.
    pub fn new() -> (s: Self)
        ensures
            s.well_formed(),
            s.slot == 0,
            s.frame_count == 0,
            !s.recreate_needed,
    {
        FrameScheduler { slot: 0, frame_count: 0, recreate_needed: false }
    }

    /// Takes the acquire outcome for this tick. Returns the image index to
    /// draw into, or `None` when the tick is skipped because the swapchain
    /// is out of date; a skipped tick never advances the frame counter.
    pub fn begin_frame(&mut self, acquire: AcquireOutcome) -> (image: Option<u32>)
        requires
            old(self).well_formed(),
        ensures
            final(self).well_formed(),
            *final(self) == spec_begin_frame(*old(self), acquire),
            final(self).frame_count == old(self).frame_count,
            match acquire {
                AcquireOutcome::Acquired(i) => image == Some(i),
                AcquireOutcome::Suboptimal(i) => image == Some(i),
                AcquireOutcome::OutOfDate => image is None && final(self).recreate_needed,
            },
    {
        match acquire {
            AcquireOutcome::Acquired(i) => Some(i),
            AcquireOutcome::Suboptimal(i) => Some(i),
            AcquireOutcome::OutOfDate => {
                self.recreate_needed = true;
                None
            },
        }
    }

    /// Completes a submitted and presented frame: the counter advances by
    /// exactly one, the frame slot rotates, and a present that reported the
    /// swapchain out of date or suboptimal flags recreation for the next
    /// tick.
    pub fn complete_frame(&mut self, present: PresentOutcome)
        requires
            old(self).well_formed(),
            old(self).frame_count < 0xffff_ffff_ffff_ffffu64,
        ensures
            final(self).well_formed(),
            *final(self) == spec_complete_frame(*old(self), present),
            final(self).frame_count == old(self).frame_count + 1,
            final(self).slot as int == (old(self).slot + 1) as int % (FRAMES_IN_FLIGHT as int),
    {
        self.slot = (self.slot + 1) % FRAMES_IN_FLIGHT;
        self.frame_count = self.frame_count + 1;
        self.recreate_needed = self.recreate_needed || !matches!(present, PresentOutcome::Presented);
    }

    /// Acknowledges that the swapchain (and, if needed, the pipeline) has
    /// been rebuilt; drawing may resume.
    pub fn recreation_done(&mut self)
        ensures
            *final(self) == (FrameScheduler { recreate_needed: false, ..*old(self) }),
    {
        self.recreate_needed = false;
    }
}

/// The frame counter increases by exactly one per successful submit/present
/// cycle, whatever the present reported, and never changes on a tick whose
/// acquire came back out of date (such a tick only flags recreation).
pub proof fn lemma_frame_counter(s: FrameScheduler, a: AcquireOutcome, p: PresentOutcome)
    requires
        s.frame_count < 0xffff_ffff_ffff_ffffu64,
    ensures
        spec_begin_frame(s, a).frame_count == s.frame_count,
        a == AcquireOutcome::OutOfDate ==> spec_begin_frame(s, a) == (FrameScheduler {
            recreate_needed: true,
            ..s
        }),
        spec_complete_frame(spec_begin_frame(s, a), p).frame_count == s.frame_count + 1,
{
}

/// One recorded render pass: the target is always cleared, and the single
/// draw call covers the fixed full-screen geometry.
#[derive(Clone, Copy, Debug, PartialEq, Eq, Structural)]
pub struct RecordedPass {
    pub cleared: bool,
    pub draw_vertex_count: u32,
}

/// Records one frame's render pass. Every frame draws exactly six
/// procedurally generated vertices — two triangles covering the viewport —
/// with no vertex or index buffer; with no active pipeline the pass still
/// begins, clears and ends without a draw call, so the surface is never
/// presented in an undefined state.
pub fn record_pass(pipeline_active: bool) -> (r: RecordedPass)
    ensures
        r.cleared,
        r.draw_vertex_count == (if pipeline_active {
            6u32
        } else {
            0u32
        }),
{
    RecordedPass { cleared: true, draw_vertex_count: if pipeline_active { 6 } else { 0 } }
}

} // verus!
