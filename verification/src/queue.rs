//! The job queue: an unbounded multi-producer channel of jobs whose receiving
//! half is shared by all workers behind a mutual-exclusion guard.
//!
//! Everything in this module is a trusted boundary around `std::sync::mpsc`
//! and `std::sync::Mutex`: Verus does not look inside these bodies. The one
//! load-bearing promise is the one on [`SharedReceiver::recv_next`]: a job
//! handed out by the queue is callable. It holds because a channel delivers
//! only values that were given to `send` on the connected producer, and the
//! only producer this crate ever creates ([`JobSender::send`]) requires its
//! argument to be callable.

use vstd::prelude::*;

verus! {

/// Producer endpoint of the job queue.
///
/// Holds the sending half of an `std::sync::mpsc` channel. The pool keeps it
/// while it accepts work and drops it to close the queue: a channel becomes
/// permanently closed the instant its last sender is gone, which every
/// blocked worker observes as end of stream.
#[verifier::external_body]
#[verifier::reject_recursive_types(F)]
pub(crate) struct JobSender<F> {
    inner: std::sync::mpsc::Sender<F>,
}

/// Shared consumer endpoint of the job queue.
///
/// The receiving half of the channel is single-consumer, so it sits behind a
/// mutual-exclusion guard; every worker holds one handle to the same guarded
/// receiver and the workers compete for jobs.
#[verifier::external_body]
#[verifier::reject_recursive_types(F)]
pub(crate) struct SharedReceiver<F> {
    inner: std::sync::Arc<std::sync::Mutex<std::sync::mpsc::Receiver<F>>>,
}

/// Relies on `std::sync::mpsc::channel`: the two endpoints form one queue,
/// with every job accepted by the sender delivered to exactly one receive
/// call, in the order sent.
#[verifier::external_body]
pub(crate) fn job_channel<F>() -> (endpoints: (JobSender<F>, SharedReceiver<F>))
{
    let (tx, rx) = std::sync::mpsc::channel();
    let shared = std::sync::Arc::new(std::sync::Mutex::new(rx));
    (JobSender { inner: tx }, SharedReceiver { inner: shared })
}

impl<F: Fn() + Send + 'static> JobSender<F> {
    /// Relies on `std::sync::mpsc::Sender::send`: the job is placed at the
    /// back of the unbounded queue without ever blocking the caller. Sending
    /// fails only when no consumer endpoint is left (a pool built with
    /// zero workers, or one whose workers were all discarded);
    /// the error is discarded, which silently drops the job, matching the
    /// pool's policy for work that can never be executed.
    #[verifier::external_body]
    pub(crate) fn send(&self, f: F)
        requires
            call_requires(f, ()),
    {
        let _ = self.inner.send(f);
    }
}

impl<F: Fn() + Send + 'static> SharedReceiver<F> {
    /// Relies on `std::sync::Arc::clone`: the new handle refers to the same
    /// guarded receiver, so its holder competes for jobs from the same queue.
    #[verifier::external_body]
    pub(crate) fn clone_handle(&self) -> (other: SharedReceiver<F>)
    {
        SharedReceiver { inner: std::sync::Arc::clone(&self.inner) }
    }

    /// Takes the guard, receives, and releases the guard *before* returning,
    /// so the caller never executes a job while holding it and the other
    /// workers can keep dequeuing concurrently.
    ///
    /// Relies on `std::sync::Mutex::lock` (exclusive access to the receiver;
    /// a poisoned guard is recovered, not propagated, so this never panics)
    /// and on `std::sync::mpsc::Receiver::recv`: it blocks until the queue
    /// has a job or no sender is left, returns only values that were given to
    /// `send` on the connected producer — all of which were required to be
    /// callable — and signals a permanently closed queue by an error, mapped
    /// to `None` here.
    #[verifier::external_body]
    pub(crate) fn recv_next(&self) -> (job: Option<F>)
        ensures
            match job {
                Some(f) => call_requires(f, ()),
                None => true,
            },
    {
        let guard = match self.inner.lock() {
            Ok(g) => g,
            Err(poisoned) => poisoned.into_inner(),
        };
        let received = guard.recv();
        drop(guard);
        match received {
            Ok(f) => Some(f),
            Err(_) => None,
        }
    }
}

/// Producer endpoint of the completion channel.
///
/// Each worker owns one handle and sends exactly one signal on it, at the
/// moment it terminates.
#[verifier::external_body]
pub(crate) struct DoneSender {
    inner: std::sync::mpsc::Sender<()>,
}

/// Consumer endpoint of the completion channel, retained by the pool: its
/// shutdown blocks until it has seen one signal per worker, or until every
/// producer handle is gone.
#[verifier::external_body]
pub(crate) struct DoneReceiver {
    inner: std::sync::mpsc::Receiver<()>,
}

/// Relies on `std::sync::mpsc::channel`: the two endpoints form one channel;
/// every signal accepted by a connected sender is delivered to exactly one
/// receive call.
#[verifier::external_body]
pub(crate) fn done_channel() -> (endpoints: (DoneSender, DoneReceiver))
{
    let (tx, rx) = std::sync::mpsc::channel();
    (DoneSender { inner: tx }, DoneReceiver { inner: rx })
}

impl DoneSender {
    /// Relies on `std::sync::mpsc::Sender::clone`: the new handle feeds the
    /// same channel as this one.
    #[verifier::external_body]
    pub(crate) fn clone_handle(&self) -> (other: DoneSender)
    {
        DoneSender { inner: self.inner.clone() }
    }

    /// Relies on `std::sync::mpsc::Sender::send`: the signal is delivered to
    /// the channel without blocking. Sending fails only when the receiving
    /// endpoint is gone — then nobody is waiting for the signal and the
    /// error is discarded rather than raised.
    #[verifier::external_body]
    pub(crate) fn send_signal(&self)
    {
        let _ = self.inner.send(());
    }
}

impl DoneReceiver {
    /// Relies on `std::sync::mpsc::Receiver::recv`: it blocks until the
    /// channel holds a signal — consumed, `true` — or until no sender is
    /// left, so that no further signal can ever arrive — `false`.
    #[verifier::external_body]
    pub(crate) fn recv_signal(&self) -> (arrived: bool)
    {
        self.inner.recv().is_ok()
    }
}

} // verus!
