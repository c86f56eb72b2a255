//! The failures that executing a task unit can end in.

use vstd::prelude::*;

verus! {

/// Message of the error raised when a worker is asked to execute while it
/// holds no task.
pub const NO_TASK_MESSAGE: &'static str = "attempted to execute no task";

/// A failure surfaced by the executor.
#[derive(Debug, PartialEq, Eq)]
pub enum ErrorCode {
    /// An invariant of the scheduler was violated upstream. This is a bug in
    /// the caller, and retrying cannot recover from it.
    LogicalError(String),
    /// A processing unit reported that its step failed.
    ProcessingError(String),
}

/// Mathematical value of an [`ErrorCode`]: its kind and the characters of
/// its message.
pub ghost enum ErrorCodeView {
    /// An invariant violation with this message.
    LogicalError(Seq<char>),
    /// A failure of a processing unit with this message.
    ProcessingError(Seq<char>),
}

impl View for ErrorCode {
    type V = ErrorCodeView;

    open spec fn view(&self) -> ErrorCodeView {
        match self {
            ErrorCode::LogicalError(message) => ErrorCodeView::LogicalError(message@),
            ErrorCode::ProcessingError(message) => ErrorCodeView::ProcessingError(message@),
        }
    }
}

impl ErrorCode {
    /// The invariant violation reported for an empty task slot.
    pub open spec fn spec_no_task() -> ErrorCodeView {
        ErrorCodeView::LogicalError(NO_TASK_MESSAGE@)
    }

    /// Builds the invariant violation reported for an empty task slot.
    pub fn no_task() -> (error: ErrorCode)
        ensures
            error@ == Self::spec_no_task(),
    {
        ErrorCode::LogicalError(NO_TASK_MESSAGE.to_owned())
    }

    /// Whether this failure is an invariant violation, which callers treat as
    /// fatal.
    pub fn is_logical_error(&self) -> (logical: bool)
        ensures
            logical == (self@ is LogicalError),
    {
        match self {
            ErrorCode::LogicalError(_) => true,
            ErrorCode::ProcessingError(_) => false,
        }
    }
}

} // verus!
