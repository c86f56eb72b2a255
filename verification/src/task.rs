//! Task units: what a worker can be asked to do.

use vstd::prelude::*;
use std::future::Future;
use std::sync::Arc;
use std::sync::atomic::AtomicBool;
use std::sync::atomic::Ordering;
use crate::error::ErrorCode;
use crate::waker::poll_once;
use crate::waker::ExecutingAsyncTaskWaker;

verus! {

/// A processing unit of the pipeline.
///
/// The executor only drives units; what a step does is up to the unit.
pub trait Processor<C>: Sized {
    /// Performs one blocking step.
    fn process(&mut self) -> Result<(), ErrorCode>;

    /// Begins the unit's step as an asynchronous computation.
    fn async_process(self) -> C;
}

/// What one poll of an asynchronous computation yielded.
pub enum PollOutcome {
    /// The computation is over, with success or with a failure.
    Ready(Result<(), ErrorCode>),
    /// The computation is not complete yet.
    Pending,
}

/// A suspended asynchronous computation together with its readiness flag.
///
/// The flag is shared with every wake adapter made for the task; the
/// computation has one owner at a time, the worker polling it or the queue
/// it is parked in.
pub struct ExecutingAsyncTask<C> {
    /// The readiness flag: raised when a wake asks for the computation to be
    /// polled again, cleared before every poll.
    pub finished: Arc<AtomicBool>,
    /// The suspended computation.
    pub future: C,
}

impl<C> ExecutingAsyncTask<C> {
    /// Wraps a computation that has not been polled yet, with a readiness
    /// flag of its own.
    pub fn create(future: C) -> (task: Self)
        ensures
            task.future == future,
    {
        ExecutingAsyncTask { finished: Arc::new(AtomicBool::new(false)), future }
    }

    /// Whether a wake was asked for since the flag was last cleared. The
    /// load has acquire ordering, to pair with the adapter's release store.
    pub fn is_ready(&self) -> bool {
        self.finished.load(Ordering::Acquire)
    }
}

impl<C: Future<Output = Result<(), ErrorCode>> + Unpin> ExecutingAsyncTask<C> {
    /// Polls the computation once: clears the readiness flag, binds a fresh
    /// wake adapter to it and polls with that adapter.
    ///
    /// The flag stays the same flag; what the poll yields is up to the
    /// computation. A task whose poll was ready is released by the caller
    /// and never polled again.
    pub(crate) fn poll(&mut self) -> (outcome: PollOutcome)
        ensures
            final(self).finished == old(self).finished,
    {
        self.finished.store(false, Ordering::Relaxed);
        let waker = ExecutingAsyncTaskWaker::create(&self.finished);
        poll_once(self, &waker)
    }
}

/// The unit of work a worker holds.
pub enum ExecutorTask<P, C> {
    /// No work assigned.
    Empty,
    /// A unit that performs one blocking step.
    Sync(P),
    /// A unit whose step begins as an asynchronous computation.
    Async(P),
    /// A computation that was suspended before and is to be polled again.
    AsyncSchedule(ExecutingAsyncTask<C>),
}

} // verus!
