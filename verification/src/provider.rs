//! The provider capability contract that every rental backend satisfies,
//! and the small capability traits the orchestration is parameterized by.
//!
//! Backends do their work over the network, so nothing is assumed of these
//! methods: the orchestration is verified to behave correctly whatever they
//! return.

use vstd::prelude::*;

use crate::errors::RetryableError;
use crate::types::{Country, DialCode, FullNumber, SmsCode, TaskId};

verus! {

/// The capability set of a phone-number rental backend.
///
/// `get_sms_code` returning `Ok(None)` means "not received yet, poll
/// again"; it is not an error. `finish_activation` and `cancel_activation`
/// are idempotent, best-effort signals; `cancel_activation` must be safe to
/// call after any failure.
pub trait Provider {
    /// The backend's error type, classified on both retryability axes.
    type Error: RetryableError;

    /// The verification target a number is rented for (which app or site).
    type Service;

    /// Rent a number for the given country and verification target.
    fn get_phone_number(&self, country: &Country, service: &Self::Service) -> Result<
        (TaskId, FullNumber),
        Self::Error,
    >;

    /// Ask whether the verification code has arrived for the given task.
    fn get_sms_code(&self, task_id: &TaskId) -> Result<Option<SmsCode>, Self::Error>;

    /// Signal that the code was used successfully.
    fn finish_activation(&self, task_id: &TaskId) -> Result<(), Self::Error>;

    /// Release the rented number.
    fn cancel_activation(&self, task_id: &TaskId) -> Result<(), Self::Error>;

    /// Whether the backend serves this dial code; backends may blacklist
    /// specific codes.
    fn is_dial_code_supported(&self, dial_code: &DialCode) -> bool {
        let _ = dial_code;
        true
    }

    /// Whether the backend serves this verification target.
    fn supports_service(&self, service: &Self::Service) -> bool {
        let _ = service;
        true
    }

    /// The countries where numbers can be rented for this target; empty
    /// when the backend cannot say.
    fn available_countries(&self, service: &Self::Service) -> Vec<Country> {
        let _ = service;
        Vec::new()
    }

    /// Every verification target this backend serves; empty when the
    /// backend cannot say.
    fn supported_services(&self) -> Vec<Self::Service> {
        Vec::new()
    }
}

/// The clock, cancellation signal and sleep of one polling run. The
/// application supplies real time and a cancellation token; tests supply a
/// script.
pub trait PollContext {
    /// Whether the caller has raised the cancellation signal.
    fn is_cancelled(&self) -> bool;

    /// Wall-clock time since the polling run began, in milliseconds.
    fn elapsed_ms(&self) -> u64;

    /// Pause for the given time, in milliseconds.
    fn sleep_ms(&self, duration_ms: u64);
}

/// A sleep capability, used by the retry decorator between attempts.
pub trait Sleeper {
    /// Pause for the given time, in milliseconds.
    fn sleep_ms(&self, duration_ms: u64);
}

/// An observer the retry decorator notifies before each retry, with the
/// error that caused it and the delay about to be slept.
pub trait RetryObserver<E> {
    /// Called once per retry, before the backoff sleep.
    fn on_retry(&self, error: &E, delay_ms: u64);
}

/// The observer that does nothing.
#[derive(Debug, Clone, Copy, PartialEq, Eq, Structural)]
pub struct NoopObserver;

impl<E> RetryObserver<E> for NoopObserver {
    fn on_retry(&self, error: &E, delay_ms: u64) {
        let _ = error;
        let _ = delay_ms;
    }
}

} // verus!
