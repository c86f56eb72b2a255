//! The wake adapter: the one channel by which an outside event asks for a
//! suspended computation to be polled again.

use vstd::prelude::*;
use std::future::Future;
use std::pin::Pin;
use std::sync::Arc;
use std::sync::atomic::AtomicBool;
use std::sync::atomic::Ordering;
use std::task::Context;
use std::task::Poll;
use crate::error::ErrorCode;
use crate::task::ExecutingAsyncTask;
use crate::task::PollOutcome;

verus! {

/// A wake adapter bound to the readiness flag of one in-flight task.
///
/// It carries nothing but the shared flag, so making one for every poll is
/// cheap.
pub struct ExecutingAsyncTaskWaker(Arc<AtomicBool>);

impl ExecutingAsyncTaskWaker {
    /// The flag this adapter raises.
    pub closed spec fn flag(&self) -> Arc<AtomicBool> {
        self.0
    }

    /// Makes an adapter bound to `flag`.
    pub fn create(flag: &Arc<AtomicBool>) -> (waker: Arc<ExecutingAsyncTaskWaker>)
        ensures
            waker.flag() == *flag,
    {
        Arc::new(ExecutingAsyncTaskWaker(flag.clone()))
    }

    /// Raises the flag. The store has release ordering, so that what the
    /// waking party wrote before is visible to whoever reads the flag as
    /// raised with acquire ordering. Raising a raised flag changes nothing.
    pub fn raise(&self) {
        self.0.store(true, Ordering::Release);
    }
}

impl futures::task::ArcWake for ExecutingAsyncTaskWaker {
    fn wake_by_ref(arc_self: &Arc<Self>) {
        arc_self.raise();
    }
}

/// Polls the computation of `task` once, with a context whose waker is
/// `waker`, which has to be bound to the task's own flag.
///
/// The waker is made by `futures::task::waker_ref`, and the poll is
/// `Future::poll`. Nothing is claimed of what the poll yields, nor of what
/// becomes of the computation: both are up to the computation. The flag is
/// not touched here, so the task keeps the flag it had. A computation that
/// has already yielded its result must not be polled again.
#[verifier::external_body]
pub(crate) fn poll_once<C: Future<Output = Result<(), ErrorCode>> + Unpin>(
    task: &mut ExecutingAsyncTask<C>,
    waker: &Arc<ExecutingAsyncTaskWaker>,
) -> (outcome: PollOutcome)
    requires
        waker.flag() == old(task).finished,
    ensures
        final(task).finished == old(task).finished,
{
    let waker = futures::task::waker_ref(waker);
    let mut cx = Context::from_waker(&waker);
    match Pin::new(&mut task.future).poll(&mut cx) {
        Poll::Ready(result) => PollOutcome::Ready(result),
        Poll::Pending => PollOutcome::Pending,
    }
}

} // verus!
