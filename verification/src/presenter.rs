//! The render-cycle protocol.
//!
//! One cycle drives acquire → record → submit → present against the
//! output surface, then notifies the frame counter. The presenter tracks
//! which stage the cycle has reached, so that at most one presentable
//! target is ever outstanding, a target is consumed or discarded before
//! the next acquisition, and the frame counter is notified exactly once
//! per completed cycle. The platform calls themselves — acquiring the
//! texture, encoding the pass, submitting, presenting — are performed by
//! the surrounding program between these steps, in the order the
//! contracts enforce.

use vstd::prelude::*;
use crate::frame_counter::FrameCounter;

verus! {

/// How far the current render cycle has progressed.
#[derive(Clone, Copy, PartialEq, Eq, Structural, Debug)]
pub enum CycleStage {
    /// No target outstanding; a new cycle may begin.
    Idle,
    /// A presentable target is held; the command sequence is not yet
    /// recorded.
    Acquired,
    /// The clear-and-draw pass over the target's view is recorded.
    Recorded,
    /// The recorded commands are submitted to the device queue.
    Submitted,
}

/// Outcome of asking the surface for the next presentable target, as
/// reported by the platform.
#[derive(Clone, Copy, PartialEq, Eq, Structural, Debug)]
pub enum AcquireStatus {
    /// A target was handed out.
    Ready,
    /// The surface is stale or lost; a fresh configuration may revive it.
    Lost,
    /// The device itself is gone; no reconfiguration can help.
    DeviceLost,
}

/// What to do with an acquisition outcome.
#[derive(Clone, Copy, PartialEq, Eq, Structural, Debug)]
pub enum AcquireDecision {
    /// Render into the acquired target.
    Render,
    /// Reapply the last known configuration and ask once more.
    ReconfigureAndRetry,
    /// Unrecoverable; terminate the loop.
    Abort,
}

/// Policy for a failed or successful acquisition: a lost surface is
/// retried once after reconfiguring with the last known size; a second
/// loss, or a lost device, is fatal.
pub open spec fn acquire_decision(status: AcquireStatus, already_retried: bool) -> AcquireDecision {
    match status {
        AcquireStatus::Ready => AcquireDecision::Render,
        AcquireStatus::Lost => if already_retried {
            AcquireDecision::Abort
        } else {
            AcquireDecision::ReconfigureAndRetry
        },
        AcquireStatus::DeviceLost => AcquireDecision::Abort,
    }
}

/// Decide what a render cycle does with an acquisition outcome; the whole
/// decision is `acquire_decision`.
pub fn decide_acquire(status: AcquireStatus, already_retried: bool) -> (d: AcquireDecision)
    ensures
        d == acquire_decision(status, already_retried),
{
    match status {
        AcquireStatus::Ready => AcquireDecision::Render,
        AcquireStatus::Lost => if already_retried {
            AcquireDecision::Abort
        } else {
            AcquireDecision::ReconfigureAndRetry
        },
        AcquireStatus::DeviceLost => AcquireDecision::Abort,
    }
}

/// Tracks the stages of the render cycle and counts completed cycles.
pub struct Presenter {
    /// Stage the current cycle has reached.
    pub stage: CycleStage,
    /// Render cycles completed since construction; pinned at the top of
    /// the range rather than wrapping.
    pub cycles_completed: u64,
}

impl Presenter {
    /// Whether a presentable target is outstanding: acquired and neither
    /// presented nor discarded yet.
    pub open spec fn holds_target(self) -> bool {
        self.stage != CycleStage::Idle
    }

    /// A presenter with no cycle in progress.
    pub fn new() -> (p: Presenter)
        ensures
            p.stage == CycleStage::Idle,
            p.cycles_completed == 0,
    {
        Presenter { stage: CycleStage::Idle, cycles_completed: 0 }
    }

    /// Whether a new cycle may begin (no target outstanding).
    pub fn is_idle(&self) -> (r: bool)
        ensures
            r == !self.holds_target(),
    {
        matches!(self.stage, CycleStage::Idle)
    }

    /// A fresh presentable target was acquired. Only legal with no other
    /// target outstanding: two concurrently acquired targets are illegal.
    pub fn target_acquired(&mut self)
        requires
            !old(self).holds_target(),
        ensures
            *final(self) == (Presenter { stage: CycleStage::Acquired, ..*old(self) }),
    {
        self.stage = CycleStage::Acquired;
    }

    /// The command sequence over the target's view — one render pass that
    /// clears, draws and stores — was recorded.
    pub fn pass_recorded(&mut self)
        requires
            old(self).stage == CycleStage::Acquired,
        ensures
            *final(self) == (Presenter { stage: CycleStage::Recorded, ..*old(self) }),
    {
        self.stage = CycleStage::Recorded;
    }

    /// The recorded commands were submitted to the device queue.
    /// Successive cycles submit in call order, which is the order the
    /// device processes them in.
    pub fn commands_submitted(&mut self)
        requires
            old(self).stage == CycleStage::Recorded,
        ensures
            *final(self) == (Presenter { stage: CycleStage::Submitted, ..*old(self) }),
    {
        self.stage = CycleStage::Submitted;
    }

    /// The target was presented, handing its ownership back to the
    /// platform and completing the cycle; the frame counter is notified
    /// of exactly this one completed cycle.
    pub fn target_presented(&mut self, counter: &mut FrameCounter)
        requires
            old(self).stage == CycleStage::Submitted,
        ensures
            final(self).stage == CycleStage::Idle,
            final(self).cycles_completed == if old(self).cycles_completed < u64::MAX {
                old(self).cycles_completed + 1
            } else {
                old(self).cycles_completed as int
            },
            exists|now: u64| *final(counter) == #[trigger] old(counter).stepped(now),
    {
        self.stage = CycleStage::Idle;
        if self.cycles_completed < u64::MAX {
            self.cycles_completed = self.cycles_completed + 1;
        }
        counter.update();
    }

    /// The outstanding target was dropped unpresented — on teardown after
    /// a close request, or when a cycle is abandoned midway. The cycle
    /// does not count as completed; no target remains outstanding.
    pub fn target_discarded(&mut self)
        requires
            old(self).holds_target(),
        ensures
            *final(self) == (Presenter { stage: CycleStage::Idle, ..*old(self) }),
    {
        self.stage = CycleStage::Idle;
    }
}

} // verus!
