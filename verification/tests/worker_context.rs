use pipeline_executor::schedule::complete_step;
use pipeline_executor::ErrorCode;
use pipeline_executor::ExecutingAsyncTask;
use pipeline_executor::ExecutionStep;
use pipeline_executor::ExecutorTask;
use pipeline_executor::ExecutorWorkerContext;
use pipeline_executor::Processor;
use pipeline_executor::COMPLETION_CODE;
use pipeline_executor::NO_TASK_MESSAGE;
use std::cell::Cell;
use std::future::Ready;
use std::rc::Rc;

type Computation = Ready<Result<(), ErrorCode>>;
type Context = ExecutorWorkerContext<Unit, Computation>;

/// A unit whose blocking step ends as told, and which counts its steps.
struct Unit {
    failure: Option<String>,
    steps: Rc<Cell<usize>>,
}

impl Unit {
    fn succeeding(steps: &Rc<Cell<usize>>) -> Unit {
        Unit { failure: None, steps: steps.clone() }
    }

    fn failing(message: &str, steps: &Rc<Cell<usize>>) -> Unit {
        Unit { failure: Some(message.to_string()), steps: steps.clone() }
    }
}

impl Processor<Computation> for Unit {
    fn process(&mut self) -> Result<(), ErrorCode> {
        self.steps.set(self.steps.get() + 1);
        match &self.failure {
            None => Ok(()),
            Some(message) => Err(ErrorCode::ProcessingError(message.clone())),
        }
    }

    fn async_process(self) -> Computation {
        self.steps.set(self.steps.get() + 1);
        match self.failure {
            None => std::future::ready(Ok(())),
            Some(message) => std::future::ready(Err(ErrorCode::ProcessingError(message))),
        }
    }
}

fn finished(step: ExecutionStep<Computation>) -> Result<usize, ErrorCode> {
    match step {
        ExecutionStep::Finished(result) => result,
        ExecutionStep::Park { .. } => panic!("the unit was to finish, not to be parked"),
    }
}

#[test]
fn create_holds_no_task() {
    let context = Context::create(4);
    assert!(!context.has_task());
    assert_eq!(context.get_worker_num(), 4);
}

#[test]
fn create_keeps_any_worker_number() {
    assert_eq!(Context::create(0).get_worker_num(), 0);
    assert_eq!(Context::create(usize::MAX).get_worker_num(), usize::MAX);
}

#[test]
fn set_task_makes_the_context_hold_it() {
    let steps = Rc::new(Cell::new(0));
    let mut context = Context::create(1);
    context.set_task(ExecutorTask::Sync(Unit::succeeding(&steps)));
    assert!(context.has_task());
    assert_eq!(context.get_worker_num(), 1);
    assert_eq!(steps.get(), 0);
}

#[test]
fn set_task_with_the_empty_unit_clears_the_slot() {
    let steps = Rc::new(Cell::new(0));
    let mut context = Context::create(1);
    context.set_task(ExecutorTask::Async(Unit::succeeding(&steps)));
    assert!(context.has_task());
    context.set_task(ExecutorTask::Empty);
    assert!(!context.has_task());
}

#[test]
fn every_unit_but_the_empty_one_counts_as_a_task() {
    let steps = Rc::new(Cell::new(0));
    let mut context = Context::create(2);
    context.set_task(ExecutorTask::Sync(Unit::succeeding(&steps)));
    assert!(context.has_task());
    context.set_task(ExecutorTask::Async(Unit::succeeding(&steps)));
    assert!(context.has_task());
    context.set_task(ExecutorTask::AsyncSchedule(ExecutingAsyncTask::create(std::future::ready(
        Ok(()),
    ))));
    assert!(context.has_task());
}

#[test]
fn take_task_hands_the_unit_out_once() {
    let steps = Rc::new(Cell::new(0));
    let mut context = Context::create(6);
    context.set_task(ExecutorTask::Sync(Unit::failing("late", &steps)));
    let taken = context.take_task();
    assert!(matches!(&taken, ExecutorTask::Sync(unit) if unit.failure.as_deref() == Some("late")));
    assert!(!context.has_task());
    assert!(matches!(context.take_task(), ExecutorTask::Empty));
    assert_eq!(context.get_worker_num(), 6);
}

#[test]
fn executing_no_task_is_a_logical_error() {
    let mut context = Context::create(9);
    let result = finished(context.execute_task());
    assert_eq!(result, Err(ErrorCode::LogicalError("attempted to execute no task".to_string())));
    assert_eq!(result, Err(ErrorCode::LogicalError(NO_TASK_MESSAGE.to_string())));
    assert_eq!(context.get_worker_num(), 9);
    assert!(!context.has_task());
}

#[test]
fn executing_no_task_fails_every_time() {
    let mut context = Context::create(0);
    for _ in 0..3 {
        let result = finished(context.execute_task());
        assert!(matches!(&result, Err(error) if error.is_logical_error()));
        assert_eq!(context.get_worker_num(), 0);
    }
}

#[test]
fn no_task_error_is_the_logical_error() {
    let error = ErrorCode::no_task();
    assert!(error.is_logical_error());
    assert_eq!(error, ErrorCode::LogicalError("attempted to execute no task".to_string()));
    assert_ne!(error, ErrorCode::ProcessingError("attempted to execute no task".to_string()));
}

#[test]
fn processing_error_is_no_logical_error() {
    assert!(!ErrorCode::ProcessingError("disk full".to_string()).is_logical_error());
    assert!(ErrorCode::LogicalError("disk full".to_string()).is_logical_error());
}

#[test]
fn sync_success_returns_the_completion_code() {
    let steps = Rc::new(Cell::new(0));
    let mut context = Context::create(3);
    context.set_task(ExecutorTask::Sync(Unit::succeeding(&steps)));
    let result = finished(context.execute_task());
    assert_eq!(result, Ok(0));
    assert_eq!(COMPLETION_CODE, 0);
    assert_eq!(steps.get(), 1);
    assert!(!context.has_task());
    assert_eq!(context.get_worker_num(), 3);
}

#[test]
fn sync_failure_is_returned_as_the_unit_gave_it() {
    let steps = Rc::new(Cell::new(0));
    let mut context = Context::create(3);
    context.set_task(ExecutorTask::Sync(Unit::failing("row 17 is corrupt", &steps)));
    let result = finished(context.execute_task());
    assert_eq!(result, Err(ErrorCode::ProcessingError("row 17 is corrupt".to_string())));
    assert_eq!(steps.get(), 1);
    assert!(!context.has_task());
}

#[test]
fn sync_unit_may_fail_with_a_logical_error_of_its_own() {
    struct Broken;
    impl Processor<Computation> for Broken {
        fn process(&mut self) -> Result<(), ErrorCode> {
            Err(ErrorCode::LogicalError("input not connected".to_string()))
        }

        fn async_process(self) -> Computation {
            std::future::ready(Ok(()))
        }
    }
    let mut context = ExecutorWorkerContext::<Broken, Computation>::create(1);
    context.set_task(ExecutorTask::Sync(Broken));
    match context.execute_task() {
        ExecutionStep::Finished(result) => {
            assert_eq!(result, Err(ErrorCode::LogicalError("input not connected".to_string())))
        }
        ExecutionStep::Park { .. } => panic!("a blocking step is never parked"),
    }
}

#[test]
fn a_unit_is_executed_exactly_once() {
    let steps = Rc::new(Cell::new(0));
    let mut context = Context::create(5);
    context.set_task(ExecutorTask::Sync(Unit::succeeding(&steps)));
    assert_eq!(finished(context.execute_task()), Ok(0));
    let again = finished(context.execute_task());
    assert!(matches!(&again, Err(error) if error.is_logical_error()));
    assert_eq!(steps.get(), 1);
}

#[test]
fn complete_step_hands_the_outcome_on() {
    assert_eq!(complete_step(Ok(())), Ok(0));
    assert_eq!(
        complete_step(Err(ErrorCode::ProcessingError("boom".to_string()))),
        Err(ErrorCode::ProcessingError("boom".to_string()))
    );
    assert_eq!(
        complete_step(Err(ErrorCode::LogicalError("boom".to_string()))),
        Err(ErrorCode::LogicalError("boom".to_string()))
    );
    assert_eq!(complete_step(Err(ErrorCode::ProcessingError(String::new()))), Err(
        ErrorCode::ProcessingError(String::new())
    ));
}

#[test]
fn wait_wakeup_returns_at_once() {
    let steps = Rc::new(Cell::new(0));
    let mut context = Context::create(8);
    context.wait_wakeup();
    assert!(!context.has_task());
    context.set_task(ExecutorTask::Sync(Unit::succeeding(&steps)));
    context.wait_wakeup();
    assert!(context.has_task());
    assert_eq!(context.get_worker_num(), 8);
    assert_eq!(steps.get(), 0);
}
