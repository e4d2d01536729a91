//! The slots of a scheduler, and the steps that change them.
//!
//! `spawn`, `check_for_job` and `finish_run` return the job that is to be
//! handed to a worker. The worker takes the execution guard with
//! `begin_run`, runs the job, and reports how the run ended with
//! `finish_run`. A running job publishes through `set_progress` and `send`.

use crate::asyncjob::channel::{is_send_error, send_outcome};
use crate::asyncjob::params::{AsyncJob, ProgressCell, RunParams};
use crate::asyncjob::state::SchedulerState;
use crate::error::Error;
use crossbeam_channel::Sender;
use vstd::prelude::*;

verus! {

/// The slots of a scheduler for jobs of type `J`: the queued job, the job
/// completed last, the progress cell, and the execution guard, with the
/// output channel. Every method is one step of the scheduler, taken at
/// once.
#[verifier::reject_recursive_types(J)]
pub struct JobSlots<J: AsyncJob> {
    next: Option<J>,
    last: Option<J>,
    progress: J::Progress,
    executing: bool,
    sender: Sender<J::Notification>,
}

impl<J: AsyncJob> View for JobSlots<J> {
    type V = SchedulerState<J, J::Progress>;

    closed spec fn view(&self) -> SchedulerState<J, J::Progress> {
        SchedulerState {
            next: self.next,
            last: self.last,
            executing: self.executing,
            progress: self.progress,
        }
    }
}

/// Whether `value` is what `P::default()` may return.
pub open spec fn is_default<P: Default>(value: P) -> bool {
    call_ensures(P::default, (), value)
}

impl<J: AsyncJob> JobSlots<J> {
    /// The output channel.
    pub closed spec fn channel(&self) -> Sender<J::Notification> {
        self.sender
    }

    /// Idle slots that notify on `sender`: nothing queued, nothing
    /// completed, no job running, progress at its default.
    pub fn new(sender: Sender<J::Notification>) -> (job: Self)
        ensures
            job@.next is None,
            job@.last is None,
            !job@.executing,
            is_default(job@.progress),
            job.channel() == sender,
    {
        JobSlots {
            next: None,
            last: None,
            progress: J::Progress::default(),
            executing: false,
            sender,
        }
    }

    /// Whether a job is running, that is, whether the execution guard is
    /// held.
    pub fn is_pending(&self) -> (pending: bool)
        ensures
            pending == self@.executing,
    {
        self.executing
    }

    /// Empties the queued slot and tells whether it held a job. A running
    /// job is not touched.
    pub fn cancel(&mut self) -> (cancelled: bool)
        ensures
            (final(self)@, cancelled) == old(self)@.cancel(),
    {
        let cancelled = self.next.is_some();
        self.next = None;
        cancelled
    }

    /// Takes the job that completed last out of the completed slot.
    pub fn take_last(&mut self) -> (last: Option<J>)
        ensures
            (final(self)@, last) == old(self)@.take_last(),
    {
        self.last.take()
    }

    /// Submits `task`: it replaces whatever was queued, and a dispatch is
    /// attempted. Returns the job to hand to a worker, which is `task`
    /// itself, if no job is running; returns `None` if one is, and `task`
    /// then waits in the queued slot.
    pub fn spawn(&mut self, task: J) -> (dispatched: Option<J>)
        ensures
            (final(self)@, dispatched) == old(self)@.submit(task),
    {
        self.schedule_next(task);
        self.check_for_job()
    }

    /// The progress snapshot that was published last.
    pub fn progress(&self) -> (snapshot: Option<J::Progress>)
        ensures
            snapshot matches Some(p) && cloned(self@.progress, p),
    {
        Some(self.progress.clone())
    }

    /// Replaces the progress snapshot; a running job calls this.
    pub fn set_progress(&mut self, p: J::Progress) -> (done: Result<(), Error>)
        ensures
            done is Ok,
            final(self)@ == old(self)@.publish(p),
    {
        self.progress = p;
        Ok(())
    }

    /// Forwards `notification` to the output channel at once; a running job
    /// calls this. Fails with a `Generic` error if the channel's receivers
    /// are gone, which the scheduler cannot know beforehand.
    pub fn send(&self, notification: J::Notification) -> (sent: Result<(), Error>)
        ensures
            sent matches Err(e) ==> is_send_error(e),
    {
        send_outcome(self.sender.send(notification))
    }

    /// A fresh execution context for one run: it notifies on the output
    /// channel and publishes to `progress`, which is to lead to
    /// `set_progress` of these slots.
    pub fn context(&self, progress: Box<dyn ProgressCell<J::Progress>>) -> (params: RunParams<
        J::Notification,
        J::Progress,
    >)
        ensures
            params.channel() == self.channel(),
    {
        RunParams::new(self.sender.clone(), progress)
    }

    /// Attempts a dispatch: if no job is running and one is queued, takes
    /// it out of the queued slot and returns it to be handed to a worker.
    pub fn check_for_job(&mut self) -> (dispatched: Option<J>)
        ensures
            (final(self)@, dispatched) == old(self)@.dispatch(),
    {
        if self.is_pending() {
            return None;
        }
        self.take_next()
    }

    /// A worker takes the execution guard before it runs its job. Returns
    /// whether the guard was free; it is held afterwards either way.
    pub fn begin_run(&mut self) -> (acquired: bool)
        ensures
            (final(self)@, acquired) == old(self)@.acquire(),
    {
        let acquired = !self.executing;
        self.executing = true;
        acquired
    }

    /// A worker reports how the run of `task` ended.
    ///
    /// After a success the job goes to the completed slot, its notification
    /// to the output channel, and the guard is released; if the channel took
    /// the notification, a dispatch is attempted and its job returned. After
    /// a failure, of the run or of the channel, the guard is released, the
    /// error returned, and no dispatch attempted: a job queued meanwhile
    /// waits for the next `spawn` or `check_for_job`.
    pub fn finish_run(&mut self, task: J, outcome: Result<J::Notification, Error>) -> (next: Result<
        Option<J>,
        Error,
    >)
        ensures
            outcome matches Err(e) ==> {
                &&& next == Err::<Option<J>, Error>(e)
                &&& final(self)@ == old(self)@.fail()
            },
            outcome is Ok ==> match next {
                Ok(dispatched) => (final(self)@, dispatched) == old(self)@.succeed(task, true),
                Err(e) => {
                    &&& is_send_error(e)
                    &&& (final(self)@, None::<J>) == old(self)@.succeed(task, false)
                },
            },
    {
        match outcome {
            Ok(notification) => {
                let sent = self.send(notification);
                match sent {
                    Ok(()) => Ok(self.complete(task, true)),
                    Err(e) => {
                        self.complete(task, false);
                        Err(e)
                    },
                }
            },
            Err(e) => {
                self.executing = false;
                Err(e)
            },
        }
    }

    /// The end of a successful run of `task`, given whether its notification
    /// was delivered: the job goes to the completed slot, the guard is
    /// released, and after a delivery a dispatch is attempted.
    pub fn complete(&mut self, task: J, delivered: bool) -> (dispatched: Option<J>)
        ensures
            (final(self)@, dispatched) == old(self)@.succeed(task, delivered),
    {
        self.last = Some(task);
        self.executing = false;
        if delivered {
            self.check_for_job()
        } else {
            None
        }
    }

    /// Whether a job is running, for a scheduler that may have lost its
    /// slots to a poisoned lock: without slots it counts as running.
    pub fn is_pending_in(found: Option<&Self>) -> (pending: bool)
        ensures
            pending == match found {
                Some(slots) => slots@.executing,
                None => true,
            },
    {
        match found {
            Some(slots) => slots.is_pending(),
            None => true,
        }
    }

    /// `cancel` for a scheduler that may have lost its slots to a poisoned
    /// lock: without slots nothing is cancelled.
    pub fn cancel_in(found: Option<&mut Self>) -> (cancelled: bool)
        ensures
            match found {
                Some(slots) => (final(slots)@, cancelled) == slots@.cancel(),
                None => !cancelled,
            },
    {
        match found {
            Some(slots) => slots.cancel(),
            None => false,
        }
    }

    /// `take_last` for a scheduler that may have lost its slots to a
    /// poisoned lock: without slots there is nothing to take.
    pub fn take_last_in(found: Option<&mut Self>) -> (last: Option<J>)
        ensures
            match found {
                Some(slots) => (final(slots)@, last) == slots@.take_last(),
                None => last is None,
            },
    {
        match found {
            Some(slots) => slots.take_last(),
            None => None,
        }
    }

    /// `spawn` for a scheduler that may have lost its slots to a poisoned
    /// lock: without slots the job is dropped and nothing is handed out.
    pub fn spawn_in(found: Option<&mut Self>, task: J) -> (dispatched: Option<J>)
        ensures
            match found {
                Some(slots) => (final(slots)@, dispatched) == slots@.submit(task),
                None => dispatched is None,
            },
    {
        match found {
            Some(slots) => slots.spawn(task),
            None => None,
        }
    }

    /// `progress` for a scheduler that may have lost its slots to a
    /// poisoned lock: without slots there is no snapshot.
    pub fn progress_in(found: Option<&Self>) -> (snapshot: Option<J::Progress>)
        ensures
            match found {
                Some(slots) => snapshot matches Some(p) && cloned(slots@.progress, p),
                None => snapshot is None,
            },
    {
        match found {
            Some(slots) => slots.progress(),
            None => None,
        }
    }

    /// `set_progress` for a scheduler whose lock gave the slots, or the
    /// text of its poisoning: without slots the error of a poisoned lock.
    pub fn set_progress_in(found: Result<&mut Self, String>, p: J::Progress) -> (done: Result<
        (),
        Error,
    >)
        ensures
            match found {
                Ok(slots) => done is Ok && final(slots)@ == slots@.publish(p),
                Err(text) => {
                    &&& done matches Err(Error::Generic(m))
                    &&& m@ == "poison error: "@ + text@
                },
            },
            done matches Err(e) ==> e.is_poisoned(),
    {
        match found {
            Ok(slots) => slots.set_progress(p),
            Err(text) => Err(Error::poisoned(text.as_str())),
        }
    }

    /// Puts `task` in the queued slot, in place of whatever was there.
    pub fn schedule_next(&mut self, task: J)
        ensures
            final(self)@ == old(self)@.queue(task),
    {
        self.next = Some(task);
    }

    /// Takes the queued job out of its slot.
    pub fn take_next(&mut self) -> (task: Option<J>)
        ensures
            task == old(self)@.next,
            final(self)@ == (SchedulerState { next: None, ..old(self)@ }),
    {
        self.next.take()
    }
}

} // verus!
