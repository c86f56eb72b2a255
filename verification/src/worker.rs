//! The worker context: the state of one worker, and the execution of the
//! task unit it holds.

use vstd::prelude::*;
use std::future::Future;
use crate::error::ErrorCode;
use crate::schedule::after_poll;
use crate::schedule::complete_step;
use crate::schedule::follows_poll_of;
use crate::schedule::is_completion;
use crate::schedule::settled_by_park;
use crate::schedule::ExecutionStep;
use crate::schedule::COMPLETION_CODE;
use crate::task::ExecutingAsyncTask;
use crate::task::ExecutorTask;
use crate::task::Processor;

verus! {

/// State of one worker: its identity, by which tasks are routed back to it,
/// and the one task unit it holds.
pub struct ExecutorWorkerContext<P, C> {
    worker_num: usize,
    task: ExecutorTask<P, C>,
}

impl<P, C> ExecutorWorkerContext<P, C> {
    /// The worker's identity.
    pub closed spec fn worker_num(&self) -> usize {
        self.worker_num
    }

    /// The task unit the worker holds.
    pub closed spec fn held(&self) -> ExecutorTask<P, C> {
        self.task
    }

    /// A context for worker `worker_num` that holds no task.
    pub fn create(worker_num: usize) -> (context: Self)
        ensures
            context.worker_num() == worker_num,
            context.held() == ExecutorTask::<P, C>::Empty,
    {
        ExecutorWorkerContext { worker_num, task: ExecutorTask::Empty }
    }

    /// Whether the worker holds a task unit.
    pub fn has_task(&self) -> (has: bool)
        ensures
            has == !(self.held() is Empty),
    {
        match &self.task {
            ExecutorTask::Empty => false,
            _ => true,
        }
    }

    /// The worker's identity.
    pub fn get_worker_num(&self) -> (worker_num: usize)
        ensures
            worker_num == self.worker_num(),
    {
        self.worker_num
    }

    /// Replaces the held unit by `task`. The unit held before is dropped: the
    /// caller sees to it that it was not still meaningful.
    pub fn set_task(&mut self, task: ExecutorTask<P, C>)
        ensures
            final(self).held() == task,
            final(self).worker_num() == old(self).worker_num(),
    {
        self.task = task;
    }

    /// Takes the held unit out, leaving the slot empty, so that a unit is
    /// consumed exactly once.
    pub fn take_task(&mut self) -> (task: ExecutorTask<P, C>)
        ensures
            task == old(self).held(),
            final(self).held() == ExecutorTask::<P, C>::Empty,
            final(self).worker_num() == old(self).worker_num(),
    {
        let mut task = ExecutorTask::Empty;
        std::mem::swap(&mut self.task, &mut task);
        task
    }

    /// Called by a worker that holds no task, before it asks the queue for
    /// work again. Blocking until the queue has work for this worker is the
    /// queue's part, which notifies on every enqueue addressed to an idle
    /// worker; the context itself keeps no state to wait on and returns at
    /// once.
    pub fn wait_wakeup(&self) {
    }
}

impl<P: Processor<C>, C: Future<Output = Result<(), ErrorCode>> + Unpin> ExecutorWorkerContext<
    P,
    C,
> {
    /// Consumes the held unit and executes it as far as the worker can on
    /// its own.
    ///
    /// - No unit held: fails with the invariant violation
    ///   [`ErrorCode::no_task`]. This is a bug upstream, not a condition to
    ///   retry.
    /// - A synchronous unit: runs its blocking step; the result is the
    ///   completion of the step's outcome.
    /// - An asynchronous unit: begins its computation, wraps it in a fresh
    ///   in-flight task and polls it once.
    /// - An in-flight task: polls it once.
    ///
    /// Where the poll leaves the computation suspended, the step is a park
    /// request in this worker's name, and the queue's answer has to be
    /// passed to [`Self::park_answered`].
    pub fn execute_task(&mut self) -> (step: ExecutionStep<C>)
        ensures
            final(self).worker_num() == old(self).worker_num(),
            final(self).held() == ExecutorTask::<P, C>::Empty,
            match old(self).held() {
                ExecutorTask::Empty => step matches ExecutionStep::Finished(Err(error))
                    && error@ == ErrorCode::spec_no_task(),
                ExecutorTask::Sync(_) => step matches ExecutionStep::Finished(result)
                    && is_completion(result),
                ExecutorTask::Async(_) => exists|task: ExecutingAsyncTask<C>|
                    follows_poll_of(step, old(self).worker_num(), task),
                ExecutorTask::AsyncSchedule(task) => follows_poll_of(
                    step,
                    old(self).worker_num(),
                    task,
                ),
            },
    {
        match self.take_task() {
            ExecutorTask::Empty => ExecutionStep::Finished(Err(ErrorCode::no_task())),
            ExecutorTask::Sync(processor) => ExecutionStep::Finished(
                self.execute_sync_task(processor),
            ),
            ExecutorTask::Async(processor) => self.execute_async_task(processor),
            ExecutorTask::AsyncSchedule(task) => self.schedule_async_task(task),
        }
    }

    /// Runs the blocking step of `processor` and hands on what it came to.
    fn execute_sync_task(&mut self, processor: P) -> (result: Result<usize, ErrorCode>)
        ensures
            *final(self) == *old(self),
            is_completion(result),
    {
        let mut processor = processor;
        let step = processor.process();
        complete_step(step)
    }

    /// Begins the computation of `processor` and schedules it as a fresh
    /// in-flight task.
    fn execute_async_task(&mut self, processor: P) -> (step: ExecutionStep<C>)
        ensures
            *final(self) == *old(self),
            exists|task: ExecutingAsyncTask<C>| follows_poll_of(step, old(self).worker_num(), task),
    {
        let future = processor.async_process();
        let task = ExecutingAsyncTask::create(future);
        let step = self.schedule_async_task(task);
        assert(follows_poll_of(step, self.worker_num(), task));
        step
    }

    /// Plays one round of scheduling on `task`: clears its flag, polls it
    /// once with a fresh wake adapter and decides by the outcome, as
    /// [`after_poll`] says. A rejected park request comes back here through
    /// [`Self::park_answered`], for the next round.
    fn schedule_async_task(&mut self, task: ExecutingAsyncTask<C>) -> (step: ExecutionStep<C>)
        ensures
            *final(self) == *old(self),
            follows_poll_of(step, old(self).worker_num(), task),
    {
        let mut task = task;
        let outcome = task.poll();
        after_poll(self.worker_num, task, outcome)
    }

    /// Takes the queue's answer to a park request and goes on from it.
    ///
    /// `None` says that the queue parked the task: the call is over with the
    /// completion code, and polling the task again is up to whoever wakes
    /// it. `Some` hands the task back because its flag was already raised, by
    /// a wake that raced with the request: the task is polled again at once,
    /// so that the wake is not lost.
    pub fn park_answered(&mut self, answer: Option<ExecutingAsyncTask<C>>) -> (step: ExecutionStep<
        C,
    >)
        ensures
            *final(self) == *old(self),
            match settled_by_park(answer is None) {
                Some(result) => step == ExecutionStep::<C>::Finished(result),
                None => follows_poll_of(step, old(self).worker_num(), answer->0),
            },
    {
        match answer {
            None => ExecutionStep::Finished(Ok(COMPLETION_CODE)),
            Some(task) => self.schedule_async_task(task),
        }
    }
}

} // verus!
