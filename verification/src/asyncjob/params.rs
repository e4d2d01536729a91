//! What a job is, and what it holds while it runs.

use crate::asyncjob::channel::send_outcome;
use crate::error::Error;
use crossbeam_channel::Sender;
use vstd::prelude::*;

verus! {

/// The way from a running job to the progress cell of the scheduler that
/// started it: a snapshot that is stored is to reach `set_progress` of the
/// scheduler's slots.
pub trait ProgressCell<P> {
    /// Replaces the contents of the progress cell. Fails only if the lock
    /// of the cell is poisoned, and then with the error that says so.
    fn store(&self, snapshot: P) -> (done: Result<(), Error>)
        ensures
            done matches Err(e) ==> e.is_poisoned(),
    ;
}

/// The execution context of one run: the output channel and the progress
/// cell of the scheduler that started the run.
#[verifier::reject_recursive_types(T)]
#[verifier::reject_recursive_types(P)]
pub struct RunParams<T: Copy + Send, P: Clone + Send + Sync> {
    sender: Sender<T>,
    progress: Box<dyn ProgressCell<P>>,
}

impl<T: Copy + Send, P: Clone + Send + Sync> RunParams<T, P> {
    /// The output channel of the context.
    pub closed spec fn channel(&self) -> Sender<T> {
        self.sender
    }

    /// A context that notifies on `sender` and publishes to `progress`.
    pub fn new(sender: Sender<T>, progress: Box<dyn ProgressCell<P>>) -> (params: Self)
        ensures
            params.channel() == sender,
    {
        RunParams { sender, progress }
    }

    /// Forwards `notification` to the output channel at once. Fails with a
    /// `Generic` error if the channel's receivers are gone, which the
    /// context cannot know beforehand.
    pub fn send(&self, notification: T) -> (sent: Result<(), Error>)
        ensures
            sent matches Err(e) ==> crate::asyncjob::channel::is_send_error(e),
    {
        send_outcome(self.sender.send(notification))
    }

    /// Replaces the contents of the progress cell with `p`. Fails only if
    /// the lock of the cell is poisoned, and then with the error that says
    /// so.
    pub fn set_progress(&self, p: P) -> (done: Result<(), Error>)
        ensures
            done matches Err(e) ==> e.is_poisoned(),
    {
        self.progress.store(p)
    }
}

/// A unit of work for a scheduler.
pub trait AsyncJob: Send + Sync + Clone {
    /// What the job sends to tell of itself; cheap to copy.
    type Notification: Copy + Send;

    /// A snapshot of how far the job has come; its default is the empty
    /// snapshot.
    type Progress: Clone + Default + Send + Sync;

    /// Does the work, away from the caller's thread. The job may send
    /// notifications and publish progress through `params` as it goes;
    /// it returns its final notification, or fails.
    fn run(&mut self, params: RunParams<Self::Notification, Self::Progress>) -> Result<
        Self::Notification,
        Error,
    >;

    /// A snapshot that the job reports of itself; the scheduler does not
    /// ask for it.
    fn get_progress(&self) -> (snapshot: Self::Progress)
        default_ensures
            call_ensures(Self::Progress::default, (), snapshot),
    {
        Self::Progress::default()
    }
}

} // verus!
