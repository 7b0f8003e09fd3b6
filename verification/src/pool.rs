//! The worker pool: a bounded set of long-lived workers competing for jobs
//! from one shared queue, with a deterministic join on shutdown.
//!
//! This module holds the pool's entire protocol — the queue and completion
//! wiring built at construction, the submission contract, and the
//! shutdown/join accounting — as verified code. The one thing it cannot do
//! itself is start an operating-system thread: [`ThreadPool::new`] therefore
//! hands back one [`Worker`] per configured slot, and the embedding program
//! gives each worker a thread of its own that runs [`Worker::step`] until
//! the worker is consumed.

use vstd::prelude::*;
use crate::queue::DoneReceiver;
use crate::queue::DoneSender;
use crate::queue::JobSender;
use crate::queue::SharedReceiver;
use crate::queue::done_channel;
use crate::queue::job_channel;

verus! {

/// One worker of a pool: the receive-and-execute loop, bound at construction
/// to the pool's shared job queue and to its completion channel.
///
/// A worker is inert until some thread runs [`Worker::step`]; the pool
/// guarantees nothing about *which* thread that is, and a single-threaded
/// caller may run it directly once the queue is closed.
#[verifier::reject_recursive_types(F)]
pub struct Worker<F> {
    /// Handle on the shared consumer endpoint of the job queue.
    queue: SharedReceiver<F>,
    /// This worker's own producer handle on the completion channel.
    done: DoneSender,
}

impl<F: Fn() + Send + 'static> Worker<F> {
    /// One turn of the worker loop: block until the queue yields the next
    /// job or reports permanent closure. On a job: invoke it exactly once
    /// and return the worker, ready for the next turn. On closure: emit the
    /// worker's single completion signal and consume the worker, so no
    /// second signal can ever be sent on its behalf. The worker's thread
    /// runs this repeatedly until it returns `None`, then exits; the loop
    /// itself lives with whoever owns the thread, because how long it runs
    /// is decided by the submitting side alone.
    ///
    /// The exclusive guard on the shared receiver is released inside the
    /// dequeue call, before the job is invoked, so job execution is never
    /// serialized across workers: while one worker runs a job, the others
    /// keep dequeuing. Every job handed out by the queue was required to be
    /// callable at submission, so no demand is put on the caller here.
    pub fn step(self) -> (again: Option<Worker<F>>)
        ensures
            again matches Some(w) ==> w == self,
    {
        let next = self.queue.recv_next();
        self.complete_turn(next)
    }

    /// The law of one worker turn, with the dequeue outcome fixed as an
    /// argument: a dequeued job is invoked — its postcondition at the empty
    /// argument list holds afterwards — and the worker is handed back
    /// unchanged; a closed queue costs the worker's single completion signal
    /// and consumes the worker. The dequeue outcome alone decides which.
    fn complete_turn(self, next: Option<F>) -> (again: Option<Worker<F>>)
        requires
            next matches Some(f) ==> call_requires(f, ()),
        ensures
            next is Some ==> again == Some(self),
            next is None ==> again is None,
            next matches Some(f) ==> call_ensures(f, (), ()),
    {
        match next {
            Some(job) => {
                job();
                Some(self)
            },
            None => {
                self.done.send_signal();
                None
            },
        }
    }
}

/// A fixed-size pool of workers executing submitted jobs.
///
/// A job is a no-argument, no-return callable; each submitted job is handed
/// to exactly one worker and invoked exactly once while the queue is open.
/// The handle is owned by one caller: [`ThreadPool::run`] submits work and
/// [`ThreadPool::wait`] consumes the handle, closes the queue and blocks
/// until every worker has reported termination. Because `wait` takes the
/// handle by value, no submission can follow it.
///
/// A pool is homogeneous in its job type `F`: every job submitted to one
/// pool is a value of the same callable type — typically one closure shape
/// with varying captures.
#[verifier::reject_recursive_types(F)]
pub struct ThreadPool<F> {
    /// Producer endpoint of the job queue: present while the pool accepts
    /// work, cleared exactly once at shutdown.
    sender: Option<JobSender<F>>,
    /// The configured worker count.
    thread_nums: u32,
    /// Consumer endpoint of the completion channel: one signal arrives per
    /// worker, at the moment that worker terminates.
    ch_done: DoneReceiver,
}

impl<F: Fn() + Send + 'static> ThreadPool<F> {
    /// The configured number of workers.
    pub closed spec fn worker_count(&self) -> u32 {
        self.thread_nums
    }

    /// True while the producer endpoint is present, i.e. a submitted job is
    /// still handed to the queue.
    pub closed spec fn accepting(&self) -> bool {
        self.sender is Some
    }

    /// Builds a pool of `n` workers: one job queue with a single producer —
    /// kept in the returned handle — and a consumer endpoint shared by all
    /// workers; one completion channel whose producer side is cloned once
    /// per worker and whose consumer side the handle retains for `wait`.
    ///
    /// The returned workers are inert: the embedding program runs each
    /// worker's loop on a thread of its own, where it blocks awaiting work.
    /// Every producer handle of the completion channel is owned by some
    /// returned worker, so once all workers are done — or gone — `wait`
    /// cannot block forever. With `n == 0` the pool still accepts
    /// submissions, but no job is ever executed and `wait` returns at once.
    pub fn new(n: u32) -> (r: (Self, Vec<Worker<F>>))
        ensures
            r.0.worker_count() == n,
            r.0.accepting(),
            r.1@.len() == n,
    {
        let (tx, rx) = job_channel::<F>();
        let (tx_done, rx_done) = done_channel();

        let mut workers: Vec<Worker<F>> = Vec::new();
        let mut i: u32 = 0;
        while i < n
            invariant
                i <= n,
                workers@.len() == i,
            decreases n - i,
        {
            workers.push(Worker { queue: rx.clone_handle(), done: tx_done.clone_handle() });
            i = i + 1;
        }

        let pool = ThreadPool { sender: Some(tx), thread_nums: n, ch_done: rx_done };
        (pool, workers)
    }

    /// Submits a job: a non-blocking, fire-and-forget handoff into the queue
    /// for eventual execution by exactly one worker, in submission order
    /// relative to other jobs. The job must be callable without
    /// preconditions, since a worker invokes it in a fresh context. No error
    /// and no completion notice is returned: if the producer endpoint is
    /// gone, or no consumer endpoint remains (a pool whose workers were all
    /// discarded, or one built with `n == 0`), the job is silently dropped
    /// and never executed.
    pub fn run(&self, f: F)
        requires
            call_requires(f, ()),
    {
        if let Some(c) = &self.sender {
            c.send(f);
        }
    }

    /// Consumes the handle and joins the pool: clears the producer endpoint
    /// — the unique event that closes the queue, since the pool held its
    /// only producer — then blocks until one completion signal per worker
    /// has arrived, in any order. Each worker drains the queue before it
    /// observes closure, so every previously submitted job has been executed
    /// when this returns. If the completion channel reports that no further
    /// signal can ever arrive — every remaining worker's producer handle was
    /// dropped without a signal — the missing workers are given up on
    /// rather than awaited forever. With zero workers there is nothing to
    /// await and this returns immediately.
    pub fn wait(self)
    {
        let mut this = self;
        this.sender = None;

        let mut i: u32 = 0;
        while i < this.thread_nums
            invariant
                i <= this.thread_nums,
            decreases this.thread_nums - i,
        {
            if !this.ch_done.recv_signal() {
                break;
            }
            i = i + 1;
        }
    }
}

} // verus!
