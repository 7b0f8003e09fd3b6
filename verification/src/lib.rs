//! A fixed-size worker-thread pool.
//!
//! A pool owns one unbounded job queue shared by a bounded set of long-lived
//! workers that compete for the submitted jobs. The caller submits
//! no-argument, no-return jobs with [`ThreadPool::run`] — a non-blocking,
//! fire-and-forget handoff — and calls [`ThreadPool::wait`] to close the
//! queue and block until every worker has drained it and reported
//! termination.
//!
//! Starting an operating-system thread is outside what this crate can do
//! itself: [`ThreadPool::new`] therefore returns one inert [`Worker`] per
//! configured slot, and the embedding program runs each worker's loop
//! ([`Worker::step`]) on a thread of its own.

mod queue;
mod pool;

pub use pool::ThreadPool;
pub use pool::Worker;
