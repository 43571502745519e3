//! The pool: a queue of pending jobs, a fixed number of slots, and the
//! workers that take jobs out as slots allow.
//!
//! Submitting never waits: `execute` puts the job in the queue and returns.
//! A job leaves the queue only through `dispatch`, which hands out the oldest
//! one when a slot is free and reserves that slot; `complete` returns it. So
//! no more jobs are in service than the pool has slots, however many units
//! poll it.

use crate::admission::{AdmissionController, AdmissionState};
use crate::queue::JobQueue;
use vstd::prelude::*;

verus! {

/// Milliseconds an idle worker waits before it polls again.
pub const IDLE_DELAY_MILLIS: u64 = 100;

/// The abstract state of a pool.
#[verifier::ext_equal]
pub struct PoolState<T> {
    /// The jobs submitted and not yet handed out, oldest first.
    pub pending: Seq<T>,
    /// The slots: how many jobs are in service, and how many may be.
    pub slots: AdmissionState,
}

impl<T> PoolState<T> {
    /// A pool of `size` slots with nothing submitted.
    pub open spec fn empty(size: nat) -> PoolState<T> {
        PoolState { pending: Seq::empty(), slots: AdmissionState { active: 0, limit: size } }
    }

    /// No more jobs are in service than there are slots.
    pub open spec fn wf(self) -> bool {
        self.slots.wf()
    }

    /// The state after `job` is submitted.
    pub open spec fn execute(self, job: T) -> PoolState<T> {
        PoolState { pending: self.pending.push(job), slots: self.slots }
    }

    /// A job is waiting and a slot is free.
    pub open spec fn can_dispatch(self) -> bool {
        self.pending.len() > 0 && self.slots.has_capacity()
    }

    /// The job that a poll hands out: the oldest, when a slot is free.
    pub open spec fn dispatched(self) -> Option<T> {
        if self.can_dispatch() {
            Some(self.pending.first())
        } else {
            None
        }
    }

    /// The state after a poll.
    pub open spec fn dispatch(self) -> PoolState<T> {
        if self.can_dispatch() {
            PoolState { pending: self.pending.drop_first(), slots: self.slots.reserve() }
        } else {
            self
        }
    }

    /// The state after a job in service is reported complete.
    pub open spec fn complete(self) -> PoolState<T> {
        PoolState { pending: self.pending, slots: self.slots.release() }
    }
}

/// A queue of jobs served by a fixed number of workers.
pub struct ThreadPool<T> {
    queue: JobQueue<T>,
    slots: AdmissionController,
}

impl<T> View for ThreadPool<T> {
    type V = PoolState<T>;

    closed spec fn view(&self) -> PoolState<T> {
        PoolState { pending: self.queue@, slots: self.slots@ }
    }
}

impl<T> ThreadPool<T> {
    /// A pool of `size` workers with an empty queue.
    pub fn new(size: usize) -> (pool: ThreadPool<T>)
        requires
            size > 0,
        ensures
            pool@ == PoolState::<T>::empty(size as nat),
    {
        ThreadPool { queue: JobQueue::new(), slots: AdmissionController::new(size) }
    }

    /// The number of workers.
    pub fn size(&self) -> (size: usize)
        ensures
            size == self@.slots.limit,
    {
        self.slots.limit()
    }

    /// The number of jobs waiting.
    pub fn pending(&self) -> (n: usize)
        ensures
            n == self@.pending.len(),
    {
        self.queue.len()
    }

    /// The number of jobs in service, never more than the pool has workers.
    pub fn active(&self) -> (n: usize)
        ensures
            n == self@.slots.active,
            self@.wf(),
    {
        self.slots.active()
    }

    /// Submits `job`: it goes behind all that wait.
    pub fn execute(&mut self, job: T)
        ensures
            final(self)@ == old(self)@.execute(job),
    {
        self.queue.push(job);
    }

    /// Hands out the oldest waiting job and reserves a slot for it, if a job
    /// waits and a slot is free. Otherwise nothing changes.
    pub fn dispatch(&mut self) -> (job: Option<T>)
        ensures
            job == old(self)@.dispatched(),
            final(self)@ == old(self)@.dispatch(),
    {
        if self.queue.is_empty() {
            return None;
        }
        if !self.slots.try_admit() {
            return None;
        }
        self.queue.pop()
    }

    /// Returns the slot of a job that has ended, however it ended.
    pub fn complete(&mut self)
        ensures
            final(self)@ == old(self)@.complete(),
    {
        self.slots.release();
    }

    /// One idle worker for each slot of the pool, numbered from zero.
    pub fn workers(&self) -> (workers: Vec<Worker>)
        ensures
            workers.len() == self@.slots.limit,
            forall|i: int|
                0 <= i < workers.len() ==> #[trigger] workers[i]@ == (WorkerState {
                    id: i as nat,
                    busy: false,
                }),
    {
        let size: usize = self.size();
        let mut workers: Vec<Worker> = Vec::new();
        let mut id: usize = 0;
        while id < size
            invariant
                id <= size,
                workers.len() == id,
                forall|i: int|
                    0 <= i < workers.len() ==> #[trigger] workers[i]@ == (WorkerState {
                        id: i as nat,
                        busy: false,
                    }),
            decreases size - id,
        {
            workers.push(Worker::new(id));
            id = id + 1;
        }
        workers
    }
}

/// The abstract state of a worker.
pub struct WorkerState {
    /// The worker's number.
    pub id: nat,
    /// Whether the worker holds a job.
    pub busy: bool,
}

/// What a worker does after a poll.
#[derive(Debug)]
pub enum WorkerAction<T> {
    /// Run this job, then report it with `finish`.
    Run(T),
    /// Nothing to do: wait this many milliseconds, then poll again.
    Sleep(u64),
}

/// A persistent execution unit: it polls the pool, runs the job it gets,
/// reports the end of the job, and polls again.
pub struct Worker {
    id: usize,
    busy: bool,
}

impl View for Worker {
    type V = WorkerState;

    closed spec fn view(&self) -> WorkerState {
        WorkerState { id: self.id as nat, busy: self.busy }
    }
}

impl Worker {
    /// An idle worker.
    pub fn new(id: usize) -> (worker: Worker)
        ensures
            worker@ == (WorkerState { id: id as nat, busy: false }),
    {
        Worker { id, busy: false }
    }

    /// The worker's number.
    pub fn id(&self) -> (id: usize)
        ensures
            id == self@.id,
    {
        self.id
    }

    /// Whether the worker holds a job.
    pub fn is_busy(&self) -> (busy: bool)
        ensures
            busy == self@.busy,
    {
        self.busy
    }

    /// Asks the pool for work. An idle worker gets the job that the pool
    /// hands out, and is busy from then on; where the pool hands out none it
    /// is told to wait. A busy worker gets no second job: it is told to wait
    /// and the pool is left as it was.
    pub fn poll<T>(&mut self, pool: &mut ThreadPool<T>) -> (action: WorkerAction<T>)
        ensures
            final(self)@.id == old(self)@.id,
            old(self)@.busy ==> {
                &&& action == WorkerAction::<T>::Sleep(IDLE_DELAY_MILLIS)
                &&& final(self)@.busy
                &&& final(pool)@ == old(pool)@
            },
            !old(self)@.busy ==> {
                &&& final(pool)@ == old(pool)@.dispatch()
                &&& final(self)@.busy == old(pool)@.can_dispatch()
                &&& action == match old(pool)@.dispatched() {
                    Some(job) => WorkerAction::Run(job),
                    None => WorkerAction::Sleep(IDLE_DELAY_MILLIS),
                }
            },
    {
        if self.busy {
            return WorkerAction::Sleep(IDLE_DELAY_MILLIS);
        }
        match pool.dispatch() {
            Some(job) => {
                self.busy = true;
                WorkerAction::Run(job)
            },
            None => WorkerAction::Sleep(IDLE_DELAY_MILLIS),
        }
    }

    /// Reports that the worker's job has ended, however it ended: the worker
    /// is idle again and its slot is returned. A worker that holds no job
    /// returns no slot.
    pub fn finish<T>(&mut self, pool: &mut ThreadPool<T>)
        ensures
            final(self)@ == (WorkerState { id: old(self)@.id, busy: false }),
            final(pool)@ == if old(self)@.busy {
                old(pool)@.complete()
            } else {
                old(pool)@
            },
    {
        if self.busy {
            self.busy = false;
            pool.complete();
        }
    }
}

} // verus!
