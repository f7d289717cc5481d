//! Phone-number verification orchestration.
//!
//! The crate acquires a disposable phone number from a rental backend, polls
//! that backend until a verification code arrives, times out, or is
//! cancelled, and guarantees that every unsuccessful polling run releases the
//! rented number with exactly one best-effort cancel call.
//!
//! The orchestration core is provider-agnostic: backends implement the
//! [`Provider`] capability contract, the [`SmsRetryableProvider`] decorator
//! adds resilient retry under an exponential-backoff policy, and
//! [`SmsSolverService`] runs the cancellation- and timeout-aware polling
//! loop, which is verified against the state machine in [`poll`].

pub mod api_text;
pub mod config;
pub mod country_names;
pub mod dial_codes;
pub mod errors;
pub mod hero_sms;
pub mod poll;
pub mod provider;
pub mod retry;
pub mod retry_provider;
pub mod service;
pub mod service_error;
pub mod sms_activate;
pub mod text;
pub mod types;

pub use config::{
    ConfigError, SmsServiceConfig, SmsServiceConfigBuilder, SmsSolverServiceConfig,
    SmsSolverServiceConfigBuilder,
};
pub use country_names::CountryIndex;
pub use dial_codes::DialCodeDirectory;
pub use errors::RetryableError;
pub use provider::{NoopObserver, PollContext, Provider, RetryObserver, Sleeper};
pub use retry::{RetryConfig, RetryDecision};
pub use retry_provider::SmsRetryableProvider;
pub use service::{SmsSolverService, SmsSolverServiceBuilder};
pub use service_error::SmsSolverServiceError;
pub use types::{Country, DialCode, FullNumber, Number, SmsCode, SmsTaskResult, TaskId};
