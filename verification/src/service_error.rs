//! Service-level errors: what a caller of the orchestration service can
//! receive, with both retryability flags carried forward.

use vstd::prelude::*;

use crate::errors::RetryableError;
use crate::types::{Country, DialCode, TaskId};

verus! {

/// The terminal errors of the orchestration service, generic over the
/// provider's own error type.
#[derive(Debug)]
pub enum SmsSolverServiceError<E> {
    /// The provider failed; both retryability flags of the source error are
    /// carried forward so outer layers need not re-derive them.
    Provider { source: E, is_retryable: bool, should_retry_operation: bool },
    /// No phone number is available for the requested country.
    NoNumbersAvailable { country: Country },
    /// The dial-code directory has no entry for the country.
    InvalidDialCode { country: Country },
    /// The backend returned a number the dial code could not be stripped
    /// from.
    NumberParse { full_number: String, message: String },
    /// The timeout elapsed while polling; the rented number was released.
    SmsTimeout { timeout_ms: u64, elapsed_ms: u64, poll_count: u32, task_id: TaskId },
    /// The caller cancelled; the rented number was released.
    Cancelled { elapsed_ms: u64, poll_count: u32, task_id: TaskId },
    /// Releasing the rented number failed after a timeout, a cancellation
    /// or a permanent error; kept distinct so leaked remote resources can
    /// be flagged.
    CancelFailed { task_id: TaskId, source: E },
    /// The acquired number's dial code is blacklisted.
    DialCodeBlacklisted { dial_code: DialCode, task_id: TaskId },
    /// Filtering left no dial code to use.
    NoAvailableDialCodes,
}

impl<E> SmsSolverServiceError<E> {
    /// Whether re-issuing the same call may succeed: only a provider
    /// failure whose source was transient.
    pub open spec fn retryable_spec(&self) -> bool {
        match self {
            SmsSolverServiceError::Provider { is_retryable, .. } => *is_retryable,
            _ => false,
        }
    }

    /// Whether a fresh acquisition may succeed: a provider failure says so
    /// itself; a timeout and missing inventory are worth a fresh try; the
    /// rest are configuration or caller decisions that a retry cannot mend.
    pub open spec fn retry_operation_spec(&self) -> bool {
        match self {
            SmsSolverServiceError::Provider { should_retry_operation, .. } =>
                *should_retry_operation,
            SmsSolverServiceError::SmsTimeout { .. } => true,
            SmsSolverServiceError::NoNumbersAvailable { .. } => true,
            _ => false,
        }
    }
}

impl<E> RetryableError for SmsSolverServiceError<E> {
    fn is_retryable(&self) -> (r: bool)
        ensures
            r == self.retryable_spec(),
    {
        match self {
            SmsSolverServiceError::Provider { is_retryable, .. } => *is_retryable,
            _ => false,
        }
    }

    fn should_retry_operation(&self) -> (r: bool)
        ensures
            r == self.retry_operation_spec(),
    {
        match self {
            SmsSolverServiceError::Provider { should_retry_operation, .. } =>
                *should_retry_operation,
            SmsSolverServiceError::SmsTimeout { .. } => true,
            SmsSolverServiceError::NoNumbersAvailable { .. } => true,
            _ => false,
        }
    }
}

} // verus!
