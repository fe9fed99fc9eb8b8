//! The error that the user interface receives from a failed command.

use vstd::prelude::*;

verus! {

/// A failed command as the user interface sees it: a stable code, a
/// message, the operation that failed, whether retrying may help, and the
/// configuration revision it concerned, if any.
#[derive(Debug, Clone)]
pub struct IpcError {
    pub code: &'static str,
    pub message: String,
    pub operation: &'static str,
    pub retryable: bool,
    pub config_revision: Option<u64>,
}

impl IpcError {
    /// A request that was refused as invalid: retrying it unchanged will
    /// not help.
    pub fn validation(operation: &'static str, code: &'static str, message: String) -> (e: IpcError)
        ensures
            e.code == code,
            e.operation == operation,
            e.message == message,
            !e.retryable,
            e.config_revision is None,
    {
        IpcError { code, message, operation, retryable: false, config_revision: None }
    }

    /// A failure while carrying out a valid request: it may succeed when
    /// retried.
    pub fn runtime(operation: &'static str, code: &'static str, message: String) -> (e: IpcError)
        ensures
            e.code == code,
            e.operation == operation,
            e.message == message,
            e.retryable,
            e.config_revision is None,
    {
        IpcError { code, message, operation, retryable: true, config_revision: None }
    }
}

} // verus!
