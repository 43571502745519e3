//! The queue of pending jobs: first in, first out, without a bound.

use std::collections::VecDeque;
use vstd::prelude::*;

verus! {

/// Jobs waiting for a worker, oldest first.
///
/// A job is moved in by `push` and moved out by `pop`: it stands at one
/// position at most, and once handed out it is no longer in the queue.
pub struct JobQueue<T> {
    jobs: VecDeque<T>,
}

impl<T> View for JobQueue<T> {
    type V = Seq<T>;

    closed spec fn view(&self) -> Seq<T> {
        self.jobs@
    }
}

impl<T> JobQueue<T> {
    /// An empty queue.
    pub fn new() -> (queue: JobQueue<T>)
        ensures
            queue@ == Seq::<T>::empty(),
    {
        JobQueue { jobs: VecDeque::new() }
    }

    /// The number of jobs waiting.
    pub fn len(&self) -> (n: usize)
        ensures
            n == self@.len(),
    {
        self.jobs.len()
    }

    /// Whether no job is waiting.
    pub fn is_empty(&self) -> (empty: bool)
        ensures
            empty == (self@.len() == 0),
    {
        self.jobs.len() == 0
    }

    /// Puts `job` behind all that wait.
    pub fn push(&mut self, job: T)
        ensures
            final(self)@ == old(self)@.push(job),
    {
        self.jobs.push_back(job);
    }

    /// Takes out the job that has waited longest, if there is one.
    pub fn pop(&mut self) -> (job: Option<T>)
        ensures
            old(self)@.len() == 0 ==> job is None && final(self)@ == old(self)@,
            old(self)@.len() > 0 ==> job == Some(old(self)@.first()) && final(self)@ == old(
                self,
            )@.drop_first(),
    {
        self.jobs.pop_front()
    }
}

} // verus!
