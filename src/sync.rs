//! The per-frame loop: recording, submission, the fence values signaled, and
//! when the CPU waits for the GPU.

use vstd::prelude::*;
use crate::commands::{FrameCommand, frame_commands, record_frame};
use crate::targets::{FrameTargets, FRAME_COUNT};

verus! {

/// Where the per-frame loop stands between two paints.
#[derive(Clone, Copy, Debug, PartialEq, Eq, Structural)]
pub enum FramePhase {
    /// The GPU has been seen to finish every submission: the allocator may be reset.
    Idle,
    /// A frame has been recorded; it is to be executed, presented and signaled.
    Recorded,
    /// The queue has been asked to signal `value`, which the fence has not yet been
    /// seen to reach.
    Signaled { value: u64 },
    /// The fence has been seen to reach the last signaled value; the back-buffer
    /// index is to be refreshed.
    Drained,
}

/// What the submitter hands to the queue and the swap chain after a recording.
#[derive(Clone, Copy, Debug, PartialEq, Eq, Structural)]
pub struct Submission {
    /// Present's sync interval.
    pub sync_interval: u32,
    /// Present's flags.
    pub present_flags: u32,
    /// The value the queue signals on the fence once the frame's work is done.
    pub fence_value: u64,
}

/// What to do after reading the fence's completed value.
#[derive(Clone, Copy, Debug, PartialEq, Eq, Structural)]
pub enum FenceStep {
    /// Register the event on completion of `value`, block on it, then read the fence again.
    Wait { value: u64 },
    /// The GPU is idle: refresh the back-buffer index.
    Done,
}

/// The abstract state of a [`FrameLoop`].
pub struct FrameLoopView {
    pub targets: FrameTargets,
    pub frame_index: u32,
    /// The next value to signal.
    pub fence_value: u64,
    /// The last completed value read from the fence.
    pub completed: u64,
    pub phase: FramePhase,
    /// Every value signaled so far, in order.
    pub signaled: Seq<u64>,
}

/// The per-frame producer side of the render loop: it records each frame, picks
/// the fence values to signal, and decides when the CPU must wait for the GPU.
/// It stalls every frame, so only one allocator and one list are needed.
pub struct FrameLoop {
    targets: FrameTargets,
    frame_index: u32,
    fence_value: u64,
    completed: u64,
    phase: FramePhase,
    signaled: Ghost<Seq<u64>>,
}

impl View for FrameLoop {
    type V = FrameLoopView;

    closed spec fn view(&self) -> FrameLoopView {
        FrameLoopView {
            targets: self.targets,
            frame_index: self.frame_index,
            fence_value: self.fence_value,
            completed: self.completed,
            phase: self.phase,
            signaled: self.signaled@,
        }
    }
}

impl FrameLoop {
    /// The loop's invariant: the targets fit, the index names a back buffer, the
    /// signaled values are 1, 2, 3, ... with the next one in `fence_value`, a wait
    /// is on the last of them, and every phase past the wait has seen it complete.
    pub closed spec fn wf(&self) -> bool {
        &&& self.targets.wf()
        &&& self.frame_index < FRAME_COUNT
        &&& self.fence_value == self.signaled@.len() + 1
        &&& forall|k: int| 0 <= k < self.signaled@.len() ==> #[trigger] self.signaled@[k] == k + 1
        &&& match self.phase {
            FramePhase::Signaled { value } => self.signaled@.len() > 0 && value == self.signaled@.last(),
            _ => self.signaled@.len() > 0 ==> self.completed >= self.signaled@.last(),
        }
    }

    /// The loop right after binding to the window: nothing signaled yet, the next
    /// fence value 1, rendering into back buffer `frame_index`.
    pub fn new(targets: FrameTargets, frame_index: u32) -> (r: FrameLoop)
        requires
            targets.wf(),
            frame_index < FRAME_COUNT,
        ensures
            r.wf(),
            r@ == (FrameLoopView {
                targets,
                frame_index,
                fence_value: 1,
                completed: 0,
                phase: FramePhase::Idle,
                signaled: Seq::empty(),
            }),
    {
        FrameLoop {
            targets,
            frame_index,
            fence_value: 1,
            completed: 0,
            phase: FramePhase::Idle,
            signaled: Ghost(Seq::empty()),
        }
    }

    pub fn frame_index(&self) -> (r: u32)
        ensures
            r == self@.frame_index,
    {
        self.frame_index
    }

    pub fn fence_value(&self) -> (r: u64)
        ensures
            r == self@.fence_value,
    {
        self.fence_value
    }

    pub fn completed(&self) -> (r: u64)
        ensures
            r == self@.completed,
    {
        self.completed
    }

    pub fn phase(&self) -> (r: FramePhase)
        ensures
            r == self@.phase,
    {
        self.phase
    }

    pub fn targets(&self) -> (r: FrameTargets)
        ensures
            r == self@.targets,
    {
        self.targets
    }

    /// Records the frame for the current back buffer. Only allowed while the GPU
    /// is idle, since the recording starts by resetting the allocator.
    pub fn begin_frame(&mut self) -> (r: Vec<FrameCommand>)
        requires
            old(self).wf(),
            old(self)@.phase == FramePhase::Idle,
        ensures
            final(self).wf(),
            r@ == frame_commands(old(self)@.targets, old(self)@.frame_index),
            final(self)@ == (FrameLoopView { phase: FramePhase::Recorded, ..old(self)@ }),
    {
        let r = record_frame(&self.targets, self.frame_index);
        self.phase = FramePhase::Recorded;
        r
    }

    /// After the recorded list was executed: present with sync interval 1 and no
    /// flags, then signal the current fence value, which goes up by one.
    pub fn submit(&mut self) -> (r: Submission)
        requires
            old(self).wf(),
            old(self)@.phase == FramePhase::Recorded,
            old(self)@.fence_value < u64::MAX,
        ensures
            final(self).wf(),
            r == (Submission { sync_interval: 1, present_flags: 0, fence_value: old(self)@.fence_value }),
            final(self)@ == (FrameLoopView {
                fence_value: (old(self)@.fence_value + 1) as u64,
                phase: FramePhase::Signaled { value: old(self)@.fence_value },
                signaled: old(self)@.signaled.push(old(self)@.fence_value),
                ..old(self)@
            }),
    {
        let value = self.fence_value;
        self.fence_value = value + 1;
        self.phase = FramePhase::Signaled { value };
        self.signaled = Ghost(self.signaled@.push(value));
        Submission { sync_interval: 1, present_flags: 0, fence_value: value }
    }

    /// Takes the fence's completed value. At or past the signaled value the GPU is
    /// idle; below it the CPU must block until the fence reaches it.
    pub fn observe_fence(&mut self, completed: u64) -> (r: FenceStep)
        requires
            old(self).wf(),
            old(self)@.phase is Signaled,
        ensures
            final(self).wf(),
            ({
                let value = old(self)@.phase->Signaled_value;
                if completed >= value {
                    &&& r == FenceStep::Done
                    &&& final(self)@ == (FrameLoopView {
                        completed,
                        phase: FramePhase::Drained,
                        ..old(self)@
                    })
                } else {
                    &&& r == (FenceStep::Wait { value })
                    &&& final(self)@ == (FrameLoopView { completed, ..old(self)@ })
                }
            }),
    {
        self.completed = completed;
        match self.phase {
            FramePhase::Signaled { value } => {
                if completed >= value {
                    self.phase = FramePhase::Drained;
                    FenceStep::Done
                } else {
                    FenceStep::Wait { value }
                }
            },
            _ => FenceStep::Done,
        }
    }

    /// Takes the swap chain's current back-buffer index; the next frame renders
    /// into it.
    pub fn next_back_buffer(&mut self, index: u32)
        requires
            old(self).wf(),
            old(self)@.phase == FramePhase::Drained,
            index < FRAME_COUNT,
        ensures
            final(self).wf(),
            final(self)@ == (FrameLoopView { frame_index: index, phase: FramePhase::Idle, ..old(self)@ }),
    {
        self.frame_index = index;
        self.phase = FramePhase::Idle;
    }
}

/// The values signaled on the fence are 1, 2, 3, ... in order, and the next one
/// is one past the last.
pub proof fn lemma_fence_values_count_up(l: FrameLoop)
    requires
        l.wf(),
    ensures
        forall|k: int| 0 <= k < l@.signaled.len() ==> #[trigger] l@.signaled[k] == k + 1,
        l@.fence_value == l@.signaled.len() + 1,
{
}

/// The allocator is reset only at the start of a frame, which needs the loop to be
/// idle; an idle loop has seen the fence reach the last value it signaled, so the
/// GPU has finished every list that used the allocator.
pub proof fn lemma_allocator_reset_after_drain(l: FrameLoop)
    requires
        l.wf(),
        l@.phase == FramePhase::Idle,
    ensures
        l@.signaled.len() > 0 ==> l@.completed >= l@.signaled.last(),
{
}

} // verus!
