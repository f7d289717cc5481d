//! The two-level retryability classification every error carries.

use vstd::prelude::*;

verus! {

/// An error that can say whether retrying makes sense, on two independent
/// axes.
///
/// * **Task-level** (`is_retryable`): re-issuing the same call for the same
///   task may succeed — transient network failures, rate limits, temporary
///   backend unavailability.
/// * **Operation-level** (`should_retry_operation`): abandoning the current
///   task and acquiring a fresh number may succeed even when that task is
///   beyond saving — a banned number, an expired rental.
///
/// The two answers drive different remediations: retry-in-place reuses the
/// rented number, retry-with-new-resource discards it and rents again.
pub trait RetryableError {
    /// Whether re-issuing the same call for the same task may succeed.
    fn is_retryable(&self) -> bool;

    /// Whether a fresh acquisition may succeed even if the task-level retry
    /// would not.
    fn should_retry_operation(&self) -> bool;
}

} // verus!
