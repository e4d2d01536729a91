//! The scheduler as a state machine: what it holds, and what each event
//! makes of it.

use vstd::prelude::*;

verus! {

/// What a scheduler holds at one moment.
pub struct SchedulerState<J, P> {
    /// The queued slot: the job that waits to be started, if any.
    pub next: Option<J>,
    /// The completed slot: the job that finished last and was not taken yet.
    pub last: Option<J>,
    /// Whether the execution guard is held, that is, whether a job runs.
    pub executing: bool,
    /// The progress cell: the snapshot published last.
    pub progress: P,
}

impl<J, P> SchedulerState<J, P> {
    /// Nothing is queued and nothing runs.
    pub open spec fn is_idle(self) -> bool {
        self.next is None && !self.executing
    }

    /// The state with `task` in the queued slot, whatever was there before.
    pub open spec fn queue(self, task: J) -> Self {
        SchedulerState { next: Some(task), ..self }
    }

    /// An attempt to dispatch: with the guard free and a job queued, the job
    /// leaves the queued slot for a worker; else nothing changes.
    pub open spec fn dispatch(self) -> (Self, Option<J>) {
        if !self.executing && self.next is Some {
            (SchedulerState { next: None, ..self }, self.next)
        } else {
            (self, None)
        }
    }

    /// A submission: the job is queued, then a dispatch is attempted.
    pub open spec fn submit(self, task: J) -> (Self, Option<J>) {
        self.queue(task).dispatch()
    }

    /// A cancellation: the queued slot is emptied; the result tells whether
    /// it held a job.
    pub open spec fn cancel(self) -> (Self, bool) {
        (SchedulerState { next: None, ..self }, self.next is Some)
    }

    /// A read of the completed slot, which empties it.
    pub open spec fn take_last(self) -> (Self, Option<J>) {
        (SchedulerState { last: None, ..self }, self.last)
    }

    /// A running job publishes a progress snapshot.
    pub open spec fn publish(self, snapshot: P) -> Self {
        SchedulerState { progress: snapshot, ..self }
    }

    /// A worker tries to take the execution guard; the result tells whether
    /// it got it.
    pub open spec fn acquire(self) -> (Self, bool) {
        (SchedulerState { executing: true, ..self }, !self.executing)
    }

    /// A run ended well: the job goes to the completed slot and the guard is
    /// released. If its notification was delivered, a dispatch is attempted.
    pub open spec fn succeed(self, task: J, delivered: bool) -> (Self, Option<J>) {
        let released = SchedulerState { last: Some(task), executing: false, ..self };
        if delivered {
            released.dispatch()
        } else {
            (released, None)
        }
    }

    /// A run failed: the guard is released and nothing else changes. No
    /// dispatch is attempted.
    pub open spec fn fail(self) -> Self {
        SchedulerState { executing: false, ..self }
    }
}

} // verus!
