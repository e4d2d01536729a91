//! A scheduler that runs at most one job at a time on the worker pool and
//! keeps only the latest job submitted while one is running.
//!
//! The scheduler is a handle on slots that the caller's thread and the
//! workers share behind a lock. Each of its operations takes the lock,
//! takes one step on the slots, and lets go of the lock; what a step does
//! is stated on `JobSlots`, and what follows for runs of steps in `laws`.
//! Of the value that an operation returns nothing is stated here: between
//! two operations of one thread another thread may have taken steps.

pub mod channel;
pub mod laws;
pub mod lock;
pub mod params;
pub mod slots;
pub mod state;

use crate::asyncjob::lock::{access, lock, share};
use crate::asyncjob::params::{AsyncJob, ProgressCell};
use crate::asyncjob::slots::JobSlots;
use crate::error::Error;
use crossbeam_channel::Sender;
use std::sync::{Arc, Mutex};
use vstd::prelude::*;

verus! {

/// A single-slot scheduler for jobs of type `J`.
#[verifier::reject_recursive_types(J)]
pub struct AsyncSingleJob<J: AsyncJob> {
    slots: Arc<Mutex<JobSlots<J>>>,
    pending: Arc<Mutex<()>>,
}

/// The progress cell of a scheduler, as a running job reaches it.
#[verifier::reject_recursive_types(J)]
pub struct SharedCell<J: AsyncJob> {
    slots: Arc<Mutex<JobSlots<J>>>,
}

impl<J: AsyncJob> ProgressCell<J::Progress> for SharedCell<J> {
    /// Publishes `snapshot` in the slots of the scheduler. Fails if the
    /// lock of the slots is poisoned.
    fn store(&self, snapshot: J::Progress) -> (done: Result<(), Error>) {
        match lock(&*self.slots) {
            Ok(mut guard) => JobSlots::<J>::set_progress_in(Ok(access(&mut guard)), snapshot),
            Err(text) => JobSlots::<J>::set_progress_in(Err(text), snapshot),
        }
    }
}

impl<J: AsyncJob> Clone for AsyncSingleJob<J> {
    /// Another handle on the same scheduler.
    fn clone(&self) -> (other: Self) {
        AsyncSingleJob { slots: share(&self.slots), pending: share(&self.pending) }
    }
}

/// `rayon_core::spawn`: hands the run of `task` to a worker of the pool
/// and returns at once. The worker calls `work` on `job` with `task`. The
/// pool starts its threads at the first call.
#[verifier::external_body]
fn spawn_on_pool<J: 'static + AsyncJob>(job: AsyncSingleJob<J>, task: J) {
    rayon_core::spawn(move || job.work(task));
}

impl<J: 'static + AsyncJob> AsyncSingleJob<J> {
    /// An idle scheduler that notifies on `sender`.
    pub fn new(sender: Sender<J::Notification>) -> (job: Self) {
        AsyncSingleJob {
            slots: Arc::new(Mutex::new(JobSlots::new(sender))),
            pending: Arc::new(Mutex::new(())),
        }
    }

    /// Whether a job is running. A scheduler whose lock is poisoned counts
    /// as running.
    pub fn is_pending(&self) -> (pending: bool) {
        match lock(&*self.slots) {
            Ok(mut guard) => JobSlots::<J>::is_pending_in(Some(&*access(&mut guard))),
            Err(_) => JobSlots::<J>::is_pending_in(None),
        }
    }

    /// Discards the queued job, if there is one, and tells whether there
    /// was. A running job is not touched.
    pub fn cancel(&mut self) -> (cancelled: bool) {
        match lock(&*self.slots) {
            Ok(mut guard) => JobSlots::<J>::cancel_in(Some(access(&mut guard))),
            Err(_) => JobSlots::<J>::cancel_in(None),
        }
    }

    /// Takes the job that completed last, if it was not taken yet.
    pub fn take_last(&self) -> (last: Option<J>) {
        match lock(&*self.slots) {
            Ok(mut guard) => JobSlots::<J>::take_last_in(Some(access(&mut guard))),
            Err(_) => JobSlots::<J>::take_last_in(None),
        }
    }

    /// Submits `task`: it replaces whatever was queued. Returns whether
    /// this call started a run; if a job is running, `task` waits and
    /// starts by itself when that run has ended well.
    pub fn spawn(&mut self, task: J) -> (started: bool) {
        let handed = match lock(&*self.slots) {
            Ok(mut guard) => JobSlots::<J>::spawn_in(Some(access(&mut guard)), task),
            Err(_) => JobSlots::<J>::spawn_in(None, task),
        };
        self.start(handed)
    }

    /// The progress snapshot that was published last.
    pub fn progress(&self) -> (snapshot: Option<J::Progress>) {
        match lock(&*self.slots) {
            Ok(mut guard) => JobSlots::<J>::progress_in(Some(&*access(&mut guard))),
            Err(_) => JobSlots::<J>::progress_in(None),
        }
    }

    /// Hands the job to a worker, if there is one to hand.
    fn start(&self, handed: Option<J>) -> (started: bool)
        ensures
            started == handed is Some,
    {
        match handed {
            Some(task) => {
                spawn_on_pool(self.clone(), task);
                true
            },
            None => false,
        }
    }

    /// What a worker does with `task`: it runs it, and lets a failure go.
    fn work(&self, task: J) {
        let _ = self.run_job(task);
    }

    /// One run, on a worker: takes the execution guard, which waits for a
    /// run that is under way; runs `task` with a fresh execution context;
    /// reports the end of the run to the slots; lets go of the guard; and
    /// hands the job that the slots give out then, if any, to a worker.
    /// After a failure, of the run, of the output channel or of a lock,
    /// nothing is handed out.
    fn run_job(&self, task: J) -> (done: Result<(), Error>) {
        let mut task = task;
        let handed = {
            let _pending = match lock(&*self.pending) {
                Ok(guard) => guard,
                Err(text) => {
                    return Err(Error::poisoned(text.as_str()));
                },
            };
            let params = match lock(&*self.slots) {
                Ok(mut guard) => {
                    let slots = access(&mut guard);
                    slots.begin_run();
                    slots.context(Box::new(SharedCell { slots: share(&self.slots) }))
                },
                Err(text) => {
                    return Err(Error::poisoned(text.as_str()));
                },
            };
            let outcome = task.run(params);
            match lock(&*self.slots) {
                Ok(mut guard) => access(&mut guard).finish_run(task, outcome)?,
                Err(text) => {
                    return Err(Error::poisoned(text.as_str()));
                },
            }
        };
        self.start(handed);
        Ok(())
    }
}

} // verus!
