//! What holds of a pool over every sequence of events.
//!
//! A schedule is the sequence of calls that reach one pool, in the order in
//! which they take effect. The functions of [`crate::thread_pool`] each make
//! one step of it; the lemmas here speak of whole schedules.

use crate::thread_pool::PoolState;
use vstd::prelude::*;

verus! {

/// One call on a pool.
pub enum PoolEvent<T> {
    /// A job is submitted.
    Execute(T),
    /// A worker polls for a job.
    Dispatch,
    /// A worker reports that its job has ended.
    Complete,
}

impl<T> PoolState<T> {
    /// The state after one event.
    pub open spec fn step(self, event: PoolEvent<T>) -> PoolState<T> {
        match event {
            PoolEvent::Execute(job) => self.execute(job),
            PoolEvent::Dispatch => self.dispatch(),
            PoolEvent::Complete => self.complete(),
        }
    }

    /// The state after a schedule.
    pub open spec fn run(self, events: Seq<PoolEvent<T>>) -> PoolState<T>
        decreases events.len(),
    {
        if events.len() == 0 {
            self
        } else {
            self.run(events.drop_last()).step(events.last())
        }
    }

    /// The jobs handed to workers in the course of a schedule, in the order
    /// in which they were handed out.
    pub open spec fn started(self, events: Seq<PoolEvent<T>>) -> Seq<T>
        decreases events.len(),
    {
        if events.len() == 0 {
            Seq::empty()
        } else {
            let earlier = self.started(events.drop_last());
            match events.last() {
                PoolEvent::Dispatch => match self.run(events.drop_last()).dispatched() {
                    Some(job) => earlier.push(job),
                    None => earlier,
                },
                _ => earlier,
            }
        }
    }
}

/// The jobs submitted in the course of a schedule, in order of arrival.
pub open spec fn submitted<T>(events: Seq<PoolEvent<T>>) -> Seq<T>
    decreases events.len(),
{
    if events.len() == 0 {
        Seq::empty()
    } else {
        match events.last() {
            PoolEvent::Execute(job) => submitted(events.drop_last()).push(job),
            _ => submitted(events.drop_last()),
        }
    }
}

/// The number of completions reported in the course of a schedule.
pub open spec fn completions<T>(events: Seq<PoolEvent<T>>) -> nat
    decreases events.len(),
{
    if events.len() == 0 {
        0
    } else {
        match events.last() {
            PoolEvent::Complete => completions(events.drop_last()) + 1,
            _ => completions(events.drop_last()),
        }
    }
}

/// At no point of a schedule are more jobs in service than the pool has
/// slots, and the number of slots never changes.
pub proof fn lemma_never_over_limit<T>(state: PoolState<T>, events: Seq<PoolEvent<T>>)
    requires
        state.wf(),
    ensures
        state.run(events).wf(),
        state.run(events).slots.limit == state.slots.limit,
    decreases events.len(),
{
    if events.len() > 0 {
        lemma_never_over_limit(state, events.drop_last());
    }
}

/// Jobs leave the queue in the order in which they arrived, each one once
/// and none lost: what waited at the start followed by what was submitted
/// is what was handed out followed by what still waits.
pub proof fn lemma_each_job_once_in_order<T>(state: PoolState<T>, events: Seq<PoolEvent<T>>)
    ensures
        state.pending + submitted(events) == state.started(events) + state.run(events).pending,
    decreases events.len(),
{
    if events.len() == 0 {
        assert(state.pending + submitted(events) =~= state.started(events) + state.run(
            events,
        ).pending);
    } else {
        let earlier = events.drop_last();
        let before = state.run(earlier);
        lemma_each_job_once_in_order(state, earlier);
        assert(state.pending + submitted(earlier) == state.started(earlier) + before.pending);
        match events.last() {
            PoolEvent::Execute(job) => {
                assert(state.pending + submitted(earlier).push(job) =~= (state.pending
                    + submitted(earlier)).push(job));
                assert(state.started(earlier) + before.pending.push(job) =~= (state.started(
                    earlier,
                ) + before.pending).push(job));
            },
            PoolEvent::Dispatch => {
                if before.can_dispatch() {
                    assert(state.started(earlier).push(before.pending.first())
                        + before.pending.drop_first() =~= state.started(earlier)
                        + before.pending);
                }
            },
            PoolEvent::Complete => {},
        }
    }
}

/// A job starts only in a slot that was free at the start or has been
/// returned since: the jobs started in a schedule are no more than the free
/// slots it began with and the completions reported in it.
pub proof fn lemma_starts_wait_for_slots<T>(state: PoolState<T>, events: Seq<PoolEvent<T>>)
    requires
        state.wf(),
    ensures
        state.started(events).len() + state.slots.active <= state.run(events).slots.active
            + completions(events),
        state.started(events).len() + state.slots.active <= state.slots.limit + completions(
            events,
        ),
    decreases events.len(),
{
    lemma_never_over_limit(state, events);
    if events.len() > 0 {
        lemma_starts_wait_for_slots(state, events.drop_last());
        lemma_never_over_limit(state, events.drop_last());
    }
}

/// With every slot taken, no job starts until a completion is reported.
pub proof fn lemma_full_pool_starts_nothing<T>(state: PoolState<T>, events: Seq<PoolEvent<T>>)
    requires
        state.wf(),
        state.slots.active == state.slots.limit,
        completions(events) == 0,
    ensures
        state.started(events).len() == 0,
        state.run(events).slots == state.slots,
{
    lemma_never_over_limit(state, events);
    lemma_starts_wait_for_slots(state, events);
    lemma_slots_follow_starts(state, events);
}

/// One job more than the pool has slots: submitted to an idle pool, the
/// last of them is still waiting for as long as no completion is reported,
/// whatever the order of submissions and polls.
pub proof fn lemma_one_job_too_many_waits<T>(size: nat, events: Seq<PoolEvent<T>>)
    requires
        submitted(events).len() == size + 1,
        completions(events) == 0,
    ensures
        PoolState::<T>::empty(size).started(events).len() <= size,
        PoolState::<T>::empty(size).run(events).pending.len() > 0,
        PoolState::<T>::empty(size).run(events).pending.last() == submitted(events).last(),
{
    let idle = PoolState::<T>::empty(size);
    lemma_starts_wait_for_slots(idle, events);
    lemma_each_job_once_in_order(idle, events);
    assert(idle.pending + submitted(events) =~= submitted(events));
    let started = idle.started(events);
    let waiting = idle.run(events).pending;
    assert(submitted(events).len() == started.len() + waiting.len());
    assert((started + waiting).last() == waiting.last());
}

/// With one slot the pool is serial: while a job is in service no other
/// starts, so of two jobs the second starts only after the first has been
/// reported complete.
pub proof fn lemma_one_slot_is_serial<T>(state: PoolState<T>, events: Seq<PoolEvent<T>>)
    requires
        state.slots.limit == 1,
        state.slots.active == 1,
        state.started(events).len() > 0,
    ensures
        completions(events) > 0,
{
    lemma_starts_wait_for_slots(state, events);
}

/// The jobs in service at the end of a schedule are those in service at its
/// start and those started in it, less at most one for each completion.
pub proof fn lemma_slots_follow_starts<T>(state: PoolState<T>, events: Seq<PoolEvent<T>>)
    requires
        state.wf(),
    ensures
        state.run(events).slots.active <= state.slots.active + state.started(events).len(),
        completions(events) == 0 ==> state.run(events).slots.active == state.slots.active
            + state.started(events).len(),
    decreases events.len(),
{
    if events.len() > 0 {
        lemma_slots_follow_starts(state, events.drop_last());
    }
}

} // verus!
