//! The retry decorator: wraps any provider and re-issues a failed call
//! under the exponential-backoff policy, until success, a non-retryable
//! error, or an exhausted budget. The decision after every failed attempt
//! is the verified `RetryConfig::decide`, so a non-retryable error is
//! returned after exactly one call and every delay obeys the policy's
//! bounds; errors pass through unchanged.

use vstd::prelude::*;

use crate::errors::RetryableError;
use crate::provider::{NoopObserver, Provider, RetryObserver, Sleeper};
use crate::retry::{RetryConfig, RetryDecision};
use crate::types::{Country, DialCode, FullNumber, SmsCode, TaskId};

verus! {

/// A provider with automatic retry on its acquisition and polling calls.
/// `finish_activation` and `cancel_activation` pass through undecorated:
/// they are already best-effort and idempotent.
#[derive(Debug, Clone)]
pub struct SmsRetryableProvider<P, S, O> {
    inner: P,
    retry_config: RetryConfig,
    sleeper: S,
    observer: Option<O>,
}

impl<P: Provider, S: Sleeper> SmsRetryableProvider<P, S, NoopObserver> {
    /// Wrap a provider with the default retry policy.
    pub fn new(inner: P, sleeper: S) -> (r: Self)
        ensures
            r.inner_spec() == inner,
            r.retry_config_spec() == RetryConfig::default_spec(),
    {
        SmsRetryableProvider {
            inner,
            retry_config: RetryConfig::default(),
            sleeper,
            observer: None,
        }
    }

    /// Wrap a provider with the given retry policy.
    pub fn with_config(inner: P, retry_config: RetryConfig, sleeper: S) -> (r: Self)
        ensures
            r.inner_spec() == inner,
            r.retry_config_spec() == retry_config,
    {
        SmsRetryableProvider { inner, retry_config, sleeper, observer: None }
    }
}

impl<P: Provider, S: Sleeper, O: RetryObserver<P::Error>> SmsRetryableProvider<P, S, O> {
    /// The wrapped provider.
    pub closed spec fn inner_spec(&self) -> P {
        self.inner
    }

    /// The retry policy in force.
    pub closed spec fn retry_config_spec(&self) -> RetryConfig {
        self.retry_config
    }

    /// This decorator with an observer that is notified, with the error and
    /// the coming delay, before every retry.
    pub fn with_on_retry<O2: RetryObserver<P::Error>>(self, observer: O2) -> (r:
        SmsRetryableProvider<P, S, O2>)
        ensures
            r.inner_spec() == self.inner_spec(),
            r.retry_config_spec() == self.retry_config_spec(),
    {
        SmsRetryableProvider {
            inner: self.inner,
            retry_config: self.retry_config,
            sleeper: self.sleeper,
            observer: Some(observer),
        }
    }

    /// The wrapped provider.
    pub fn inner(&self) -> (r: &P)
        ensures
            *r == self.inner_spec(),
    {
        &self.inner
    }

    /// The retry policy in force.
    pub fn retry_config(&self) -> (r: &RetryConfig)
        ensures
            *r == self.retry_config_spec(),
    {
        &self.retry_config
    }
}

impl<P: Provider, S: Sleeper, O: RetryObserver<P::Error>> Provider for SmsRetryableProvider<
    P,
    S,
    O,
> {
    type Error = P::Error;

    type Service = P::Service;

    fn get_phone_number(&self, country: &Country, service: &Self::Service) -> Result<
        (TaskId, FullNumber),
        Self::Error,
    > {
        let mut attempt: usize = 0;
        loop
            invariant
                attempt <= self.retry_config.max_retries,
            decreases self.retry_config.max_retries - attempt,
        {
            match self.inner.get_phone_number(country, service) {
                Ok(v) => {
                    return Ok(v);
                },
                Err(e) => {
                    match self.retry_config.decide(attempt, e.is_retryable()) {
                        RetryDecision::Stop => {
                            return Err(e);
                        },
                        RetryDecision::RetryAfter { delay_ms } => {
                            if let Some(observer) = &self.observer {
                                observer.on_retry(&e, delay_ms);
                            }
                            self.sleeper.sleep_ms(delay_ms);
                            attempt = attempt + 1;
                        },
                    }
                },
            }
        }
    }

    fn get_sms_code(&self, task_id: &TaskId) -> Result<Option<SmsCode>, Self::Error> {
        let mut attempt: usize = 0;
        loop
            invariant
                attempt <= self.retry_config.max_retries,
            decreases self.retry_config.max_retries - attempt,
        {
            match self.inner.get_sms_code(task_id) {
                Ok(v) => {
                    return Ok(v);
                },
                Err(e) => {
                    match self.retry_config.decide(attempt, e.is_retryable()) {
                        RetryDecision::Stop => {
                            return Err(e);
                        },
                        RetryDecision::RetryAfter { delay_ms } => {
                            if let Some(observer) = &self.observer {
                                observer.on_retry(&e, delay_ms);
                            }
                            self.sleeper.sleep_ms(delay_ms);
                            attempt = attempt + 1;
                        },
                    }
                },
            }
        }
    }

    fn finish_activation(&self, task_id: &TaskId) -> Result<(), Self::Error> {
        self.inner.finish_activation(task_id)
    }

    fn cancel_activation(&self, task_id: &TaskId) -> Result<(), Self::Error> {
        self.inner.cancel_activation(task_id)
    }

    fn is_dial_code_supported(&self, dial_code: &DialCode) -> bool {
        self.inner.is_dial_code_supported(dial_code)
    }

    fn supports_service(&self, service: &Self::Service) -> bool {
        self.inner.supports_service(service)
    }

    fn available_countries(&self, service: &Self::Service) -> Vec<Country> {
        self.inner.available_countries(service)
    }

    fn supported_services(&self) -> Vec<Self::Service> {
        self.inner.supported_services()
    }
}

} // verus!
