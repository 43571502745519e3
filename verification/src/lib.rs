//! Bounded-concurrency connection dispatch for a minimal line-oriented server.
//!
//! The crate holds the decisions of such a server and none of its I/O:
//!
//! * [`catalog`]: the two response payloads, loaded once at startup;
//! * [`handler`]: the routing table and the bytes of a response;
//! * [`queue`]: the FIFO of pending jobs;
//! * [`admission`]: the count of reserved slots under a fixed limit;
//! * [`thread_pool`]: queue and slots together, and the workers that poll them;
//! * [`schedule`]: what holds of every sequence of pool events;
//! * [`listener`]: startup and the accept loop as a state machine.
//!
//! The pool buffers: submitting never waits, and what arrives faster than it
//! is served queues up. A driver that would rather stall its accept loop
//! uses an [`admission::AdmissionController`] by itself: it dispatches a
//! connection only once `try_admit` has granted a slot, and releases the
//! slot when the connection is done, however it ended.
//!
//! Every value here is owned by one caller at a time. A driver that shares a
//! pool between execution units keeps it behind one lock and makes each call
//! in a critical section of its own; the calls then form one sequence, and
//! what [`schedule`] proves of sequences of events holds of it.

pub mod admission;
pub mod catalog;
pub mod handler;
pub mod job;
pub mod listener;
pub mod queue;
pub mod schedule;
pub mod thread_pool;
