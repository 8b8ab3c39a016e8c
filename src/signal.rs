//! The cooperative cancellation handshake between a background flow and the
//! code that wants it stopped.
//!
//! A slot is armed (`CanRun`) right before its flow starts. Whoever wants the
//! flow gone sets `ShutGracefull` and waits; the flow notices on its next poll,
//! answers `RespondToShut`, and stops. A slot at `RespondToShut` has no live flow.
use vstd::prelude::*;

verus! {

/// The state of one task slot.
#[derive(PartialEq, Eq, Structural, Debug, Clone, Copy)]
pub enum FnSIG {
    /// The flow may run; set exactly once, right before it starts.
    CanRun,
    /// Someone asked the flow to stop.
    ShutGracefull,
    /// The flow has stopped (or none was started).
    RespondToShut,
}

/// The two task slots.
#[derive(PartialEq, Eq, Structural, Debug, Clone, Copy)]
pub struct ExecutionSignals {
    pub scan_task: FnSIG,
    pub connect_task: FnSIG,
}

/// The kinds of background flow, one slot each.
#[derive(PartialEq, Eq, Structural, Debug, Clone, Copy)]
pub enum VFBTask {
    Scan,
    Connect,
}

/// A flow whose slot is in this state is still running.
pub open spec fn is_live(sig: FnSIG) -> bool {
    sig != FnSIG::RespondToShut
}

/// The slot after a stop request: a stopped flow stays stopped.
pub open spec fn requested(sig: FnSIG) -> FnSIG {
    if sig == FnSIG::RespondToShut {
        FnSIG::RespondToShut
    } else {
        FnSIG::ShutGracefull
    }
}

/// The slot after the flow has polled it.
pub open spec fn polled(sig: FnSIG) -> FnSIG {
    if sig == FnSIG::CanRun {
        FnSIG::CanRun
    } else {
        FnSIG::RespondToShut
    }
}

/// A stop request is answered at the flow's next poll. The request leaves no
/// slot at `CanRun`, so the poll tells the flow to stop and leaves the slot
/// acknowledged; the next request then finds it so. A wait that repeats the
/// request once per tick thus ends at the first tick after the flow polled.
pub proof fn lemma_shutdown_answered(sig: FnSIG)
    ensures
        requested(sig) != FnSIG::CanRun,
        polled(requested(sig)) == FnSIG::RespondToShut,
        requested(polled(requested(sig))) == FnSIG::RespondToShut,
        requested(FnSIG::RespondToShut) == FnSIG::RespondToShut,
{
}

impl ExecutionSignals {
    /// The slot of `task`.
    pub open spec fn slot(self, task: VFBTask) -> FnSIG {
        match task {
            VFBTask::Scan => self.scan_task,
            VFBTask::Connect => self.connect_task,
        }
    }

    /// These signals with the slot of `task` set to `sig`.
    pub open spec fn with_slot(self, task: VFBTask, sig: FnSIG) -> ExecutionSignals {
        match task {
            VFBTask::Scan => ExecutionSignals { scan_task: sig, ..self },
            VFBTask::Connect => ExecutionSignals { connect_task: sig, ..self },
        }
    }
}

impl VFBTask {
    /// Called by the running flow at each step: true when it must stop, in
    /// which case its slot now reads `RespondToShut`.
    pub fn poll_signal(&self, signals: &mut ExecutionSignals) -> (stop: bool)
        ensures
            stop == (old(signals).slot(*self) != FnSIG::CanRun),
            *final(signals) == old(signals).with_slot(*self, polled(old(signals).slot(*self))),
    {
        let task_signal = self.task_signal(signals);
        if *task_signal == FnSIG::ShutGracefull || *task_signal == FnSIG::RespondToShut {
            *task_signal = FnSIG::RespondToShut;
            return true;
        }
        false
    }

    /// The slot within `signals` that belongs to the flow kind.
    pub fn task_signal<'a>(&self, signals: &'a mut ExecutionSignals) -> (r: &'a mut FnSIG)
        ensures
            *r == old(signals).slot(*self),
            *final(signals) == old(signals).with_slot(*self, *final(r)),
    {
        match self {
            VFBTask::Scan => &mut signals.scan_task,
            VFBTask::Connect => &mut signals.connect_task,
        }
    }
}

} // verus!
