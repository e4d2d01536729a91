//! What holds of the scheduler over whole runs of events.
//!
//! Every law is stated over `SchedulerState`, the view in which the
//! contracts of `JobSlots`'s methods are written: `submit` is `spawn`,
//! `dispatch` is `check_for_job`, `acquire` is `begin_run`, `succeed` and
//! `fail` are the two ends of `finish_run`, `publish` is `set_progress`.

use crate::asyncjob::state::SchedulerState;
use vstd::prelude::*;

verus! {

/// One thing that can happen to a scheduler.
pub enum Event<J, P> {
    /// A job is submitted.
    Submit(J),
    /// A dispatch is attempted.
    Dispatch,
    /// The queued job is cancelled.
    Cancel,
    /// The completed slot is read and emptied.
    TakeLast,
    /// A running job publishes a progress snapshot.
    Publish(P),
    /// A worker tries to take the execution guard.
    Acquire,
    /// A run ends well; the flag tells whether its notification was
    /// delivered.
    Succeed(J, bool),
    /// A run fails.
    Fail,
}

impl<J, P> SchedulerState<J, P> {
    /// The state after `event`.
    pub open spec fn step(self, event: Event<J, P>) -> Self {
        match event {
            Event::Submit(task) => self.submit(task).0,
            Event::Dispatch => self.dispatch().0,
            Event::Cancel => self.cancel().0,
            Event::TakeLast => self.take_last().0,
            Event::Publish(snapshot) => self.publish(snapshot),
            Event::Acquire => self.acquire().0,
            Event::Succeed(task, delivered) => self.succeed(task, delivered).0,
            Event::Fail => self.fail(),
        }
    }

    /// The job that `event` hands to a worker, if it hands one.
    pub open spec fn handed_out(self, event: Event<J, P>) -> Option<J> {
        match event {
            Event::Submit(task) => self.submit(task).1,
            Event::Dispatch => self.dispatch().1,
            Event::Succeed(task, delivered) => self.succeed(task, delivered).1,
            _ => None,
        }
    }

    /// The state after all of `events`, in order.
    pub open spec fn run(self, events: Seq<Event<J, P>>) -> Self
        decreases events.len(),
    {
        if events.len() == 0 {
            self
        } else {
            self.run(events.drop_last()).step(events.last())
        }
    }

    /// The state after each of `tasks` was submitted, in order.
    pub open spec fn submit_all(self, tasks: Seq<J>) -> Self
        decreases tasks.len(),
    {
        if tasks.len() == 0 {
            self
        } else {
            self.submit_all(tasks.drop_last()).submit(tasks.last()).0
        }
    }
}

/// The snapshot published last in `events`, or `initial` if none was.
pub open spec fn last_published<J, P>(events: Seq<Event<J, P>>, initial: P) -> P
    decreases events.len(),
{
    if events.len() == 0 {
        initial
    } else {
        match events.last() {
            Event::Publish(snapshot) => snapshot,
            _ => last_published(events.drop_last(), initial),
        }
    }
}

/// Whether the guard is held after `events`, if `initial` tells whether it
/// was held before: the last acquisition or end of a run decides.
pub open spec fn guard_after<J, P>(events: Seq<Event<J, P>>, initial: bool) -> bool
    decreases events.len(),
{
    if events.len() == 0 {
        initial
    } else {
        match events.last() {
            Event::Acquire => true,
            Event::Succeed(_, _) => false,
            Event::Fail => false,
            _ => guard_after(events.drop_last(), initial),
        }
    }
}

/// Whether `task` is submitted by one of the first `upto` events.
pub open spec fn submitted_within<J, P>(events: Seq<Event<J, P>>, upto: int, task: J) -> bool {
    exists|k: int| 0 <= k < upto && k < events.len() && events[k] == Event::<J, P>::Submit(task)
}

/// A submission while no job runs starts the submitted job: it is handed
/// out at once and the queued slot stays empty.
pub proof fn lemma_submit_starts_when_no_job_runs<J, P>(state: SchedulerState<J, P>, task: J)
    requires
        !state.executing,
    ensures
        state.submit(task).1 == Some(task),
        state.submit(task).0 == (SchedulerState { next: None, ..state }),
{
}

/// Submissions while a job runs are coalesced, however many there are: none
/// is handed out, the last one waits in the queued slot, and nothing else
/// changes.
pub proof fn lemma_submissions_coalesce_while_job_runs<J, P>(
    state: SchedulerState<J, P>,
    tasks: Seq<J>,
)
    requires
        state.executing,
    ensures
        forall|i: int|
            0 <= i < tasks.len() ==> (#[trigger] state.submit_all(tasks.take(i))).submit(
                tasks[i],
            ).1 is None,
        tasks.len() > 0 ==> state.submit_all(tasks) == (SchedulerState {
            next: Some(tasks.last()),
            ..state
        }),
        tasks.len() == 0 ==> state.submit_all(tasks) == state,
    decreases tasks.len(),
{
    if tasks.len() > 0 {
        let front = tasks.drop_last();
        lemma_submissions_coalesce_while_job_runs(state, front);
        assert forall|i: int| 0 <= i < tasks.len() implies (#[trigger] state.submit_all(
            tasks.take(i),
        )).submit(tasks[i]).1 is None by {
            if i < front.len() {
                assert(tasks.take(i) =~= front.take(i));
                assert(tasks[i] == front[i]);
            } else {
                assert(tasks.take(i) =~= front);
            }
        }
    }
}

/// A cancellation tells whether a job was queued, and leaves nothing
/// queued: a dispatch attempted next hands out nothing, and a second
/// cancellation finds nothing.
pub proof fn lemma_cancel_empties_queue<J, P>(state: SchedulerState<J, P>)
    ensures
        state.cancel().1 == (state.next is Some),
        state.cancel().0.next is None,
        state.cancel().0.dispatch().1 is None,
        state.cancel().0.cancel().1 == false,
        state.cancel().0.cancel().0 == state.cancel().0,
        state.cancel().0.executing == state.executing,
        state.cancel().0.last == state.last,
        state.cancel().0.progress == state.progress,
{
}

/// A job that was handed out is out of reach of a cancellation.
pub proof fn lemma_cancel_misses_started_job<J, P>(state: SchedulerState<J, P>, task: J)
    requires
        state.submit(task).1 is Some,
    ensures
        state.submit(task).0.cancel().1 == false,
{
}

/// Every job that is handed out was queued at the start or submitted by
/// then. So a job that left the queued slot, by a cancellation or by a
/// later submission, is never handed out unless it is submitted again.
pub proof fn lemma_handed_out_was_submitted<J, P>(
    state: SchedulerState<J, P>,
    events: Seq<Event<J, P>>,
    i: int,
)
    requires
        0 <= i < events.len(),
    ensures
        state.run(events.take(i)).handed_out(events[i]) matches Some(task) ==> state.next == Some(
            task,
        ) || submitted_within(events, i + 1, task),
        state.run(events.take(i + 1)).next matches Some(task) ==> state.next == Some(task)
            || submitted_within(events, i + 1, task),
    decreases i,
{
    let before = state.run(events.take(i));
    assert(events.take(i + 1).drop_last() =~= events.take(i));
    assert(events.take(i + 1).last() == events[i]);
    assert(state.run(events.take(i + 1)) == before.step(events[i]));
    if i > 0 {
        lemma_handed_out_was_submitted(state, events, i - 1);
        assert(events.take(i - 1 + 1) =~= events.take(i));
        if before.next is Some {
            let task = before.next->Some_0;
            if state.next != Some(task) {
                let k = choose|k: int|
                    0 <= k < i && k < events.len() && events[k] == Event::<J, P>::Submit(task);
                assert(0 <= k < i + 1 && k < events.len() && events[k] == Event::<J, P>::Submit(
                    task,
                ));
            }
        }
    } else {
        assert(events.take(0) =~= Seq::<Event<J, P>>::empty());
        assert(before == state);
    }
    if let Event::Submit(task) = events[i] {
        assert(0 <= i < i + 1 && i < events.len() && events[i] == Event::<J, P>::Submit(task));
    }
}

/// A cancelled job never starts: after a cancellation, whatever happens
/// next, every job that is handed out was submitted after it. A job that
/// never starts never runs, and so never notifies.
pub proof fn lemma_cancelled_job_never_starts<J, P>(
    state: SchedulerState<J, P>,
    events: Seq<Event<J, P>>,
    i: int,
)
    requires
        0 <= i < events.len(),
    ensures
        state.cancel().0.run(events.take(i)).handed_out(events[i]) matches Some(task)
            ==> submitted_within(events, i + 1, task),
{
    lemma_handed_out_was_submitted(state.cancel().0, events, i);
}

/// A queued job that a later submission replaced never starts: after the
/// second of two submissions during one run, whatever happens next, every
/// job that is handed out is the second one or was submitted after it.
pub proof fn lemma_overwritten_job_never_starts<J, P>(
    state: SchedulerState<J, P>,
    first: J,
    second: J,
    events: Seq<Event<J, P>>,
    i: int,
)
    requires
        state.executing,
        0 <= i < events.len(),
    ensures
        state.submit(first).0.submit(second).0.run(events.take(i)).handed_out(
            events[i],
        ) matches Some(task) ==> task == second || submitted_within(events, i + 1, task),
{
    lemma_handed_out_was_submitted(state.submit(first).0.submit(second).0, events, i);
}

/// The completed slot yields a completed job once: a read right after a
/// successful run gives that job, and a second read gives nothing.
pub proof fn lemma_last_is_taken_once<J, P>(
    state: SchedulerState<J, P>,
    task: J,
    delivered: bool,
)
    ensures
        state.succeed(task, delivered).0.take_last().1 == Some(task),
        state.succeed(task, delivered).0.take_last().0.take_last().1 is None,
{
}

/// The completed slot changes only when a run succeeds or the slot is read.
pub proof fn lemma_last_is_kept<J, P>(state: SchedulerState<J, P>, event: Event<J, P>)
    requires
        !(event is Succeed),
        !(event is TakeLast),
    ensures
        state.step(event).last == state.last,
{
}

/// The progress cell holds the snapshot published last, whatever else
/// happened since, and whether or not a job runs.
pub proof fn lemma_progress_is_last_published<J, P>(
    state: SchedulerState<J, P>,
    events: Seq<Event<J, P>>,
)
    ensures
        state.run(events).progress == last_published(events, state.progress),
    decreases events.len(),
{
    if events.len() > 0 {
        lemma_progress_is_last_published(state, events.drop_last());
    }
}

/// The guard is held from an acquisition to the end of the run, success or
/// failure, and at no other time: submissions, dispatches, cancellations,
/// reads and published snapshots leave it as it is.
pub proof fn lemma_guard_held_exactly_during_run<J, P>(
    state: SchedulerState<J, P>,
    events: Seq<Event<J, P>>,
)
    ensures
        state.run(events).executing == guard_after(events, state.executing),
    decreases events.len(),
{
    if events.len() > 0 {
        lemma_guard_held_exactly_during_run(state, events.drop_last());
    }
}

/// The guard admits one worker at a time: while it is held, a second
/// acquisition fails; once free, the next one succeeds.
pub proof fn lemma_guard_admits_one<J, P>(state: SchedulerState<J, P>)
    ensures
        state.acquire().1 == !state.executing,
        state.acquire().0.acquire().1 == false,
        state.fail().acquire().1 == true,
{
}

/// A job submitted during a run starts by itself when that run ends well
/// and its notification is delivered; after a failure it stays queued.
pub proof fn lemma_queued_job_follows_success<J, P>(
    state: SchedulerState<J, P>,
    running: J,
    queued: J,
)
    requires
        state.executing,
    ensures
        state.submit(queued).1 is None,
        state.submit(queued).0.succeed(running, true).1 == Some(queued),
        state.submit(queued).0.succeed(running, true).0.next is None,
        state.submit(queued).0.succeed(running, false).1 is None,
        state.submit(queued).0.succeed(running, false).0.next == Some(queued),
        state.submit(queued).0.fail().next == Some(queued),
        state.submit(queued).0.fail().is_idle() == false,
{
}

} // verus!
