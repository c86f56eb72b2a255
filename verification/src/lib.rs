//! Per-worker execution engine of a pipelined query processor.
//!
//! A worker holds one task unit at a time and drives it either to completion
//! or to the point where it has to be offered to the shared task queue. The
//! context never touches the queue itself: it says what has to be handed to
//! the queue, and is told what the queue answered.
//!
//! A worker calls [`ExecutorWorkerContext::execute_task`]. For as long as the
//! step it gets back is [`ExecutionStep::Park`], it offers the task to the
//! queue and passes the queue's answer to
//! [`ExecutorWorkerContext::park_answered`]; with
//! [`ExecutionStep::Finished`] the call is over. How often this repeats is up
//! to the computation and to the wakes that reach it, so the repetition is
//! the worker's part; each round of it is decided here.

pub mod error;
pub mod schedule;
pub mod task;
pub mod waker;
pub mod worker;

pub use error::ErrorCode;
pub use error::ErrorCodeView;
pub use error::NO_TASK_MESSAGE;
pub use schedule::ExecutionStep;
pub use schedule::COMPLETION_CODE;
pub use task::ExecutingAsyncTask;
pub use task::ExecutorTask;
pub use task::PollOutcome;
pub use task::Processor;
pub use waker::ExecutingAsyncTaskWaker;
pub use worker::ExecutorWorkerContext;
