//! The orchestration service: acquire a number, then poll for the code
//! until success, timeout, cancellation or a permanent failure.
//!
//! The polling loop drives the state machine of `poll`: every iteration it
//! asks the machine what is owed, performs that one piece of outside work
//! (check, poll, cancel, sleep), and feeds the result back as an event. The
//! loop's contract says the returned result is exactly the machine's
//! outcome on the observed event sequence, so every law proved of the
//! machine holds of this loop, whatever the provider and the clock do.

use vstd::prelude::*;

use crate::config::SmsSolverServiceConfig;
use crate::dial_codes::{dir_lookup, DialCodeDirectory};
use crate::errors::RetryableError;
use crate::poll::{
    initial_machine, lemma_trace_extends, run_machine, PollEvent, PollMachine, PollOutcome,
    PollPhase, PollReply,
};
use crate::provider::{PollContext, Provider};
use crate::service_error::SmsSolverServiceError;
use crate::types::{
    number_from_full_spec, Country, NumberError, Number, SmsCode, SmsTaskResult, TaskId,
};

verus! {

/// Whether the service result `r` reports exactly the outcome the polling
/// machine `m` finished with, for a run over task `task`.
pub open spec fn wait_outcome_matches<E>(
    config: SmsSolverServiceConfig,
    task: Seq<char>,
    m: PollMachine,
    r: Result<SmsCode, SmsSolverServiceError<E>>,
) -> bool {
    match m.phase {
        PollPhase::Finished { outcome } => match (outcome, r) {
            (PollOutcome::Success { code }, Ok(c)) => c == code,
            (
                PollOutcome::Cancelled,
                Err(SmsSolverServiceError::Cancelled { elapsed_ms, poll_count, task_id }),
            ) => elapsed_ms == m.elapsed_ms && poll_count == m.poll_count && task_id@ == task,
            (
                PollOutcome::TimedOut,
                Err(
                    SmsSolverServiceError::SmsTimeout {
                        timeout_ms,
                        elapsed_ms,
                        poll_count,
                        task_id,
                    },
                ),
            ) => timeout_ms == config.timeout_ms && elapsed_ms == m.elapsed_ms && poll_count
                == m.poll_count && task_id@ == task,
            (
                PollOutcome::ProviderFailure { should_retry_operation: s },
                Err(SmsSolverServiceError::Provider { is_retryable, should_retry_operation, .. }),
            ) => !is_retryable && should_retry_operation == s,
            (
                PollOutcome::CancelFailed { .. },
                Err(SmsSolverServiceError::CancelFailed { task_id, .. }),
            ) => task_id@ == task,
            _ => false,
        },
        _ => false,
    }
}

/// The orchestration service: a provider, a polling configuration and the
/// injected country-to-dial-code directory.
#[derive(Debug, Clone)]
pub struct SmsSolverService<P> {
    provider: P,
    config: SmsSolverServiceConfig,
    dial_codes: DialCodeDirectory,
}

impl<P: Provider> SmsSolverService<P> {
    /// The configuration this service polls with.
    pub closed spec fn config_spec(&self) -> SmsSolverServiceConfig {
        self.config
    }

    /// The dial-code directory this service consults.
    pub closed spec fn dial_codes_spec(&self) -> Seq<(Country, crate::types::DialCode)> {
        self.dial_codes@
    }

    /// The provider this service drives.
    pub closed spec fn provider_spec(&self) -> P {
        self.provider
    }

    /// A service over the given provider and configuration, with an empty
    /// dial-code directory.
    pub fn new(provider: P, config: SmsSolverServiceConfig) -> (r: Self)
        ensures
            r.provider_spec() == provider,
            r.config_spec() == config,
            r.dial_codes_spec() == Seq::<(Country, crate::types::DialCode)>::empty(),
    {
        SmsSolverService { provider, config, dial_codes: DialCodeDirectory::new() }
    }

    /// A service with the default (balanced) configuration.
    pub fn with_provider(provider: P) -> (r: Self)
        ensures
            r.provider_spec() == provider,
            r.config_spec() == SmsSolverServiceConfig::default_spec(),
            r.dial_codes_spec() == Seq::<(Country, crate::types::DialCode)>::empty(),
    {
        SmsSolverService {
            provider,
            config: SmsSolverServiceConfig::balanced(),
            dial_codes: DialCodeDirectory::new(),
        }
    }

    /// Start a builder around the given provider.
    pub fn builder(provider: P) -> (r: SmsSolverServiceBuilder<P>)
        ensures
            r.provider_spec() == provider,
            r.config_spec() == SmsSolverServiceConfig::default_spec(),
    {
        SmsSolverServiceBuilder::new(provider)
    }

    /// This service with the given dial-code directory.
    pub fn with_dial_codes(self, dial_codes: DialCodeDirectory) -> (r: Self)
        ensures
            r.provider_spec() == self.provider_spec(),
            r.config_spec() == self.config_spec(),
            r.dial_codes_spec() == dial_codes@,
    {
        SmsSolverService { dial_codes, ..self }
    }

    /// The provider.
    pub fn provider(&self) -> (r: &P)
        ensures
            *r == self.provider_spec(),
    {
        &self.provider
    }

    /// The configuration.
    pub fn config(&self) -> (r: &SmsSolverServiceConfig)
        ensures
            *r == self.config_spec(),
    {
        &self.config
    }

    /// Replace the configuration.
    pub fn set_config(&mut self, config: SmsSolverServiceConfig)
        ensures
            final(self).config_spec() == config,
            final(self).provider_spec() == old(self).provider_spec(),
            final(self).dial_codes_spec() == old(self).dial_codes_spec(),
    {
        self.config = config;
    }

    /// Acquire a number: rent one from the provider, look the country's
    /// dial code up in the directory, and split the returned full number
    /// into dial code and national number.
    pub fn get_number(&self, country: &Country, service: &P::Service) -> (r: Result<
        SmsTaskResult,
        SmsSolverServiceError<P::Error>,
    >)
        ensures
            match r {
                Ok(res) => {
                    &&& res.country@ == country@
                    &&& dir_lookup(self.dial_codes_spec(), country@) matches Some(d)
                        && d@ == res.dial_code@
                    &&& number_from_full_spec(res.full_number@, res.dial_code@)
                        == Ok::<Seq<char>, NumberError>(res.number@)
                },
                Err(SmsSolverServiceError::InvalidDialCode { country: c }) => c@ == country@
                    && dir_lookup(self.dial_codes_spec(), country@) is None,
                Err(SmsSolverServiceError::NumberParse { full_number, .. }) => dir_lookup(
                    self.dial_codes_spec(),
                    country@,
                ) matches Some(d) && number_from_full_spec(full_number@, d@) is Err,
                Err(SmsSolverServiceError::Provider { .. }) => true,
                Err(_) => false,
            },
    {
        let (task_id, full_number) = match self.provider.get_phone_number(country, service) {
            Ok(v) => v,
            Err(e) => {
                let is_retryable = e.is_retryable();
                let should_retry_operation = e.should_retry_operation();
                return Err(
                    SmsSolverServiceError::Provider {
                        source: e,
                        is_retryable,
                        should_retry_operation,
                    },
                );
            },
        };
        let dial_code = match self.dial_codes.country_to_dial_code(country) {
            Some(d) => d,
            None => {
                return Err(SmsSolverServiceError::InvalidDialCode { country: country.clone() });
            },
        };
        let number = match Number::from_full_number(&full_number, &dial_code) {
            Ok(n) => n,
            Err(e) => {
                return Err(
                    SmsSolverServiceError::NumberParse {
                        full_number: full_number.as_str().to_owned(),
                        message: e.message(),
                    },
                );
            },
        };
        Ok(
            SmsTaskResult {
                task_id,
                dial_code,
                number,
                full_number,
                country: country.clone(),
            },
        )
    }

    /// Poll for the verification code until it arrives, the caller
    /// cancels, the timeout elapses, or a poll fails permanently.
    ///
    /// The result is exactly the polling machine's outcome on the events
    /// this run observed; in particular every non-success exit has issued
    /// exactly one cancel call, a reported timeout really elapsed, and a
    /// failed cancel is reported as `CancelFailed`, never as a clean exit.
    pub fn wait_for_sms_code_cancellable<C: PollContext>(
        &self,
        task_id: &TaskId,
        ctx: &C,
    ) -> (r: Result<SmsCode, SmsSolverServiceError<P::Error>>)
        ensures
            exists|events: Seq<PollEvent>|
                wait_outcome_matches(
                    self.config_spec(),
                    task_id@,
                    #[trigger] run_machine(initial_machine(self.config_spec()), events),
                    r,
                ),
            r matches Err(SmsSolverServiceError::SmsTimeout { timeout_ms, elapsed_ms, .. })
                ==> elapsed_ms >= timeout_ms && timeout_ms == self.config_spec().timeout_ms,
            r matches Err(SmsSolverServiceError::Provider { is_retryable, .. })
                ==> !is_retryable,
            match r {
                Ok(_) => true,
                Err(e) => e matches SmsSolverServiceError::Cancelled { .. } || e
                    matches SmsSolverServiceError::SmsTimeout { .. } || e
                    matches SmsSolverServiceError::Provider { .. } || e
                    matches SmsSolverServiceError::CancelFailed { .. },
            },
    {
        let ghost cfg = self.config;
        let ghost m0 = initial_machine(cfg);
        let mut machine = PollMachine::new(self.config);
        let ghost mut trace: Seq<PollEvent> = Seq::empty();
        let mut poll_error: Option<P::Error> = None;
        let mut cancel_error: Option<P::Error> = None;
        // in practice the run ends by code, cancellation or timeout; the
        // iteration budget only bounds the loop for the verifier
        let mut fuel: u64 = u64::MAX;
        loop
            invariant_except_break
                machine.phase == PollPhase::Checking,
            invariant
                machine == run_machine(m0, trace),
                m0 == initial_machine(cfg),
                cfg == self.config_spec(),
            ensures
                machine == run_machine(m0, trace),
                machine.phase == PollPhase::Checking || machine.phase
                    matches PollPhase::Finished { .. },
                (machine.phase matches PollPhase::Finished {
                    outcome: PollOutcome::ProviderFailure { .. },
                } ==> poll_error is Some),
                (machine.phase matches PollPhase::Finished {
                    outcome: PollOutcome::CancelFailed { .. },
                } ==> cancel_error is Some),
            decreases fuel,
        {
            if fuel == 0 {
                break;
            }
            fuel = fuel - 1;
            // 1. the cancellation / timeout check
            let cancelled = ctx.is_cancelled();
            let elapsed_ms = ctx.elapsed_ms();
            let event = PollEvent::Check { cancelled, elapsed_ms };
            proof {
                lemma_trace_extends(m0, trace, machine, event);
                trace = trace.push(event);
            }
            machine = machine.step(event);
            if matches!(machine.phase, PollPhase::AwaitingCancel { .. }) {
                // cancelled or timed out: release the number and stop
                let ok = match self.provider.cancel_activation(task_id) {
                    Ok(_) => true,
                    Err(e) => {
                        cancel_error = Some(e);
                        false
                    },
                };
                let event = PollEvent::CancelReturned { ok };
                proof {
                    lemma_trace_extends(m0, trace, machine, event);
                    trace = trace.push(event);
                }
                machine = machine.step(event);
                break;
            }
            // 2. one poll call
            let reply = match self.provider.get_sms_code(task_id) {
                Ok(Some(code)) => PollReply::Code { code },
                Ok(None) => PollReply::NotYet,
                Err(e) => {
                    let is_retryable = e.is_retryable();
                    let should_retry_operation = e.should_retry_operation();
                    poll_error = Some(e);
                    PollReply::Failed { is_retryable, should_retry_operation }
                },
            };
            let event = PollEvent::PollReturned { reply };
            proof {
                lemma_trace_extends(m0, trace, machine, event);
                trace = trace.push(event);
            }
            machine = machine.step(event);
            if matches!(machine.phase, PollPhase::Finished { .. }) {
                // the code arrived
                break;
            }
            if matches!(machine.phase, PollPhase::AwaitingCancel { .. }) {
                // permanent poll failure: release the number and stop
                let ok = match self.provider.cancel_activation(task_id) {
                    Ok(_) => true,
                    Err(e) => {
                        cancel_error = Some(e);
                        false
                    },
                };
                let event = PollEvent::CancelReturned { ok };
                proof {
                    lemma_trace_extends(m0, trace, machine, event);
                    trace = trace.push(event);
                }
                machine = machine.step(event);
                break;
            }
            // 3. the inter-poll pause
            ctx.sleep_ms(self.config.poll_interval_ms);
            let event = PollEvent::Slept;
            proof {
                lemma_trace_extends(m0, trace, machine, event);
                trace = trace.push(event);
            }
            machine = machine.step(event);
        }
        if !matches!(machine.phase, PollPhase::Finished { .. }) {
            // the iteration budget ran out: close the run out through the
            // machine's own cancellation / timeout path
            let cancelled = ctx.is_cancelled();
            let observed = ctx.elapsed_ms();
            let elapsed_ms = if !cancelled && observed < self.config.timeout_ms {
                self.config.timeout_ms
            } else {
                observed
            };
            let event = PollEvent::Check { cancelled, elapsed_ms };
            proof {
                lemma_trace_extends(m0, trace, machine, event);
                trace = trace.push(event);
            }
            machine = machine.step(event);
            let ok = match self.provider.cancel_activation(task_id) {
                Ok(_) => true,
                Err(e) => {
                    cancel_error = Some(e);
                    false
                },
            };
            let event = PollEvent::CancelReturned { ok };
            proof {
                lemma_trace_extends(m0, trace, machine, event);
                trace = trace.push(event);
            }
            machine = machine.step(event);
        }
        proof {
            crate::poll::lemma_run_machine_inv(cfg, trace);
            crate::poll::lemma_run_machine_config(initial_machine(cfg), trace);
        }
        let result: Result<SmsCode, SmsSolverServiceError<P::Error>> = match machine.phase {
            PollPhase::Finished { outcome } => match outcome {
                PollOutcome::Success { code } => Ok(code),
                PollOutcome::Cancelled => Err(
                    SmsSolverServiceError::Cancelled {
                        elapsed_ms: machine.elapsed_ms,
                        poll_count: machine.poll_count,
                        task_id: task_id.clone(),
                    },
                ),
                PollOutcome::TimedOut => Err(
                    SmsSolverServiceError::SmsTimeout {
                        timeout_ms: self.config.timeout_ms,
                        elapsed_ms: machine.elapsed_ms,
                        poll_count: machine.poll_count,
                        task_id: task_id.clone(),
                    },
                ),
                PollOutcome::ProviderFailure { should_retry_operation } => {
                    let source = match poll_error {
                        Some(e) => e,
                        None => vstd::pervasive::unreached(),
                    };
                    Err(
                        SmsSolverServiceError::Provider {
                            source,
                            is_retryable: false,
                            should_retry_operation,
                        },
                    )
                },
                PollOutcome::CancelFailed { .. } => {
                    let source = match cancel_error {
                        Some(e) => e,
                        None => vstd::pervasive::unreached(),
                    };
                    Err(SmsSolverServiceError::CancelFailed { task_id: task_id.clone(), source })
                },
            },
            _ => vstd::pervasive::unreached(),
        };
        proof {
            assert(wait_outcome_matches(
                self.config_spec(),
                task_id@,
                run_machine(initial_machine(self.config_spec()), trace),
                result,
            ));
        }
        result
    }

    /// Poll for the verification code with no cancellation signal: the same
    /// loop with an always-quiet signal.
    pub fn wait_for_sms_code<C: PollContext>(&self, task_id: &TaskId, ctx: &C) -> (r: Result<
        SmsCode,
        SmsSolverServiceError<P::Error>,
    >)
        ensures
            exists|events: Seq<PollEvent>|
                wait_outcome_matches(
                    self.config_spec(),
                    task_id@,
                    #[trigger] run_machine(initial_machine(self.config_spec()), events),
                    r,
                ),
            r matches Err(SmsSolverServiceError::SmsTimeout { timeout_ms, elapsed_ms, .. })
                ==> elapsed_ms >= timeout_ms && timeout_ms == self.config_spec().timeout_ms,
            r matches Err(SmsSolverServiceError::Provider { is_retryable, .. })
                ==> !is_retryable,
            match r {
                Ok(_) => true,
                Err(e) => e matches SmsSolverServiceError::Cancelled { .. } || e
                    matches SmsSolverServiceError::SmsTimeout { .. } || e
                    matches SmsSolverServiceError::Provider { .. } || e
                    matches SmsSolverServiceError::CancelFailed { .. },
            },
    {
        let quiet = NeverCancelled { inner: ctx };
        self.wait_for_sms_code_cancellable(task_id, &quiet)
    }
}

/// A polling context whose cancellation signal is never raised; clock and
/// sleep pass through.
struct NeverCancelled<'a, C: PollContext> {
    inner: &'a C,
}

impl<'a, C: PollContext> PollContext for NeverCancelled<'a, C> {
    fn is_cancelled(&self) -> bool {
        false
    }

    fn elapsed_ms(&self) -> u64 {
        self.inner.elapsed_ms()
    }

    fn sleep_ms(&self, duration_ms: u64) {
        self.inner.sleep_ms(duration_ms)
    }
}

/// Builder for `SmsSolverService`.
#[derive(Debug, Clone)]
pub struct SmsSolverServiceBuilder<P> {
    provider: P,
    config: SmsSolverServiceConfig,
    dial_codes: DialCodeDirectory,
}

impl<P: Provider> SmsSolverServiceBuilder<P> {
    /// The provider the builder holds.
    pub closed spec fn provider_spec(&self) -> P {
        self.provider
    }

    /// The configuration the builder currently holds.
    pub closed spec fn config_spec(&self) -> SmsSolverServiceConfig {
        self.config
    }

    /// The dial-code directory the builder currently holds.
    pub closed spec fn dial_codes_spec(&self) -> Seq<(Country, crate::types::DialCode)> {
        self.dial_codes@
    }

    /// A builder around the given provider, with the default configuration
    /// and an empty dial-code directory.
    pub fn new(provider: P) -> (r: Self)
        ensures
            r.provider_spec() == provider,
            r.config_spec() == SmsSolverServiceConfig::default_spec(),
            r.dial_codes_spec() == Seq::<(Country, crate::types::DialCode)>::empty(),
    {
        SmsSolverServiceBuilder {
            provider,
            config: SmsSolverServiceConfig::balanced(),
            dial_codes: DialCodeDirectory::new(),
        }
    }

    /// Set the timeout, in milliseconds.
    pub fn timeout(self, timeout_ms: u64) -> (r: Self)
        ensures
            r.provider_spec() == self.provider_spec(),
            r.config_spec() == self.config_spec().with_timeout_spec(timeout_ms),
            r.dial_codes_spec() == self.dial_codes_spec(),
    {
        let config = self.config.with_timeout(timeout_ms);
        SmsSolverServiceBuilder { config, ..self }
    }

    /// Set the poll interval, in milliseconds.
    pub fn poll_interval(self, poll_interval_ms: u64) -> (r: Self)
        ensures
            r.provider_spec() == self.provider_spec(),
            r.config_spec() == self.config_spec().with_poll_interval_spec(poll_interval_ms),
            r.dial_codes_spec() == self.dial_codes_spec(),
    {
        let config = self.config.with_poll_interval(poll_interval_ms);
        SmsSolverServiceBuilder { config, ..self }
    }

    /// Replace the whole configuration.
    pub fn config(self, config: SmsSolverServiceConfig) -> (r: Self)
        ensures
            r.provider_spec() == self.provider_spec(),
            r.config_spec() == config,
            r.dial_codes_spec() == self.dial_codes_spec(),
    {
        SmsSolverServiceBuilder { config, ..self }
    }

    /// Set the dial-code directory.
    pub fn dial_codes(self, dial_codes: DialCodeDirectory) -> (r: Self)
        ensures
            r.provider_spec() == self.provider_spec(),
            r.config_spec() == self.config_spec(),
            r.dial_codes_spec() == dial_codes@,
    {
        SmsSolverServiceBuilder { dial_codes, ..self }
    }

    /// Build the service.
    pub fn build(self) -> (r: SmsSolverService<P>)
        ensures
            r.provider_spec() == self.provider_spec(),
            r.config_spec() == self.config_spec(),
            r.dial_codes_spec() == self.dial_codes_spec(),
    {
        SmsSolverService {
            provider: self.provider,
            config: self.config,
            dial_codes: self.dial_codes,
        }
    }
}

} // verus!
