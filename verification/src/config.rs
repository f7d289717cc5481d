//! Service configuration: the timeout / poll-interval pair, its presets and
//! its validation rules. All durations are in milliseconds.

use vstd::prelude::*;

verus! {

/// Minimum allowed timeout (ten seconds), in milliseconds.
pub const MIN_TIMEOUT_MS: u64 = 10_000;

/// Minimum allowed poll interval (a tenth of a second), in milliseconds.
pub const MIN_POLL_INTERVAL_MS: u64 = 100;

/// Error when validating service configuration.
#[derive(Debug, Clone, PartialEq, Eq, Structural)]
pub enum ConfigError {
    /// Timeout is shorter than the minimum.
    TimeoutTooShort { timeout_ms: u64, min_ms: u64 },
    /// Poll interval is shorter than the minimum.
    PollIntervalTooShort { poll_interval_ms: u64, min_ms: u64 },
    /// Poll interval does not fall below the timeout.
    PollIntervalExceedsTimeout { poll_interval_ms: u64, timeout_ms: u64 },
}

/// Configuration for one polling run: how long to wait for a code in all,
/// and how long to pause between polls.
#[derive(Debug, Clone, Copy, PartialEq, Eq, Structural)]
pub struct SmsSolverServiceConfig {
    /// Maximum time to wait for a code before timing out, in milliseconds.
    pub timeout_ms: u64,
    /// Pause between polling attempts, in milliseconds.
    pub poll_interval_ms: u64,
}

/// What validation yields for a configuration: the first broken rule, in
/// the order timeout floor, poll-interval floor, interval below timeout.
pub open spec fn config_validate_spec(c: SmsSolverServiceConfig) -> Result<(), ConfigError> {
    if c.timeout_ms < MIN_TIMEOUT_MS {
        Err(ConfigError::TimeoutTooShort { timeout_ms: c.timeout_ms, min_ms: MIN_TIMEOUT_MS })
    } else if c.poll_interval_ms < MIN_POLL_INTERVAL_MS {
        Err(
            ConfigError::PollIntervalTooShort {
                poll_interval_ms: c.poll_interval_ms,
                min_ms: MIN_POLL_INTERVAL_MS,
            },
        )
    } else if c.poll_interval_ms >= c.timeout_ms {
        Err(
            ConfigError::PollIntervalExceedsTimeout {
                poll_interval_ms: c.poll_interval_ms,
                timeout_ms: c.timeout_ms,
            },
        )
    } else {
        Ok(())
    }
}

impl SmsSolverServiceConfig {
    /// The default configuration: the balanced preset.
    pub open spec fn default_spec() -> SmsSolverServiceConfig {
        SmsSolverServiceConfig { timeout_ms: 120_000, poll_interval_ms: 3_000 }
    }

    /// This configuration with another timeout.
    pub open spec fn with_timeout_spec(self, timeout_ms: u64) -> SmsSolverServiceConfig {
        SmsSolverServiceConfig { timeout_ms, ..self }
    }

    /// This configuration with another poll interval.
    pub open spec fn with_poll_interval_spec(self, poll_interval_ms: u64)
        -> SmsSolverServiceConfig {
        SmsSolverServiceConfig { poll_interval_ms, ..self }
    }

    /// Start a builder, seeded with the balanced preset.
    pub fn builder() -> (r: SmsSolverServiceConfigBuilder)
        ensures
            r.timeout_ms() == 120_000,
            r.poll_interval_ms() == 3_000,
    {
        SmsSolverServiceConfigBuilder::new()
    }

    /// Fast preset: one-minute timeout, one-second polls.
    pub fn fast() -> (r: Self)
        ensures
            r == (SmsSolverServiceConfig { timeout_ms: 60_000, poll_interval_ms: 1_000 }),
    {
        SmsSolverServiceConfig { timeout_ms: 60_000, poll_interval_ms: 1_000 }
    }

    /// Balanced preset (the default): two-minute timeout, three-second polls.
    pub fn balanced() -> (r: Self)
        ensures
            r == (SmsSolverServiceConfig { timeout_ms: 120_000, poll_interval_ms: 3_000 }),
    {
        SmsSolverServiceConfig { timeout_ms: 120_000, poll_interval_ms: 3_000 }
    }

    /// Patient preset: five-minute timeout, five-second polls.
    pub fn patient() -> (r: Self)
        ensures
            r == (SmsSolverServiceConfig { timeout_ms: 300_000, poll_interval_ms: 5_000 }),
    {
        SmsSolverServiceConfig { timeout_ms: 300_000, poll_interval_ms: 5_000 }
    }

    /// This configuration with another timeout.
    pub fn with_timeout(self, timeout_ms: u64) -> (r: Self)
        ensures
            r.timeout_ms == timeout_ms,
            r.poll_interval_ms == self.poll_interval_ms,
    {
        SmsSolverServiceConfig { timeout_ms, ..self }
    }

    /// This configuration with another poll interval.
    pub fn with_poll_interval(self, poll_interval_ms: u64) -> (r: Self)
        ensures
            r.poll_interval_ms == poll_interval_ms,
            r.timeout_ms == self.timeout_ms,
    {
        SmsSolverServiceConfig { poll_interval_ms, ..self }
    }

    /// Check the configuration against the three rules: the timeout and the
    /// poll interval must meet their minimums, and the poll interval must be
    /// strictly below the timeout.
    pub fn validate(&self) -> (r: Result<(), ConfigError>)
        ensures
            r == config_validate_spec(*self),
    {
        if self.timeout_ms < MIN_TIMEOUT_MS {
            return Err(
                ConfigError::TimeoutTooShort {
                    timeout_ms: self.timeout_ms,
                    min_ms: MIN_TIMEOUT_MS,
                },
            );
        }
        if self.poll_interval_ms < MIN_POLL_INTERVAL_MS {
            return Err(
                ConfigError::PollIntervalTooShort {
                    poll_interval_ms: self.poll_interval_ms,
                    min_ms: MIN_POLL_INTERVAL_MS,
                },
            );
        }
        if self.poll_interval_ms >= self.timeout_ms {
            return Err(
                ConfigError::PollIntervalExceedsTimeout {
                    poll_interval_ms: self.poll_interval_ms,
                    timeout_ms: self.timeout_ms,
                },
            );
        }
        Ok(())
    }
}

impl Default for SmsSolverServiceConfig {
    /// The balanced preset.
    fn default() -> (r: Self)
        ensures
            r == (SmsSolverServiceConfig { timeout_ms: 120_000, poll_interval_ms: 3_000 }),
    {
        SmsSolverServiceConfig::balanced()
    }
}

/// The three documented presets pass validation, and each of the three
/// rules alone makes validation fail with its own error.
pub proof fn lemma_config_validation()
    ensures
        config_validate_spec(
            (SmsSolverServiceConfig { timeout_ms: 60_000, poll_interval_ms: 1_000 }),
        ) is Ok,
        config_validate_spec(
            (SmsSolverServiceConfig { timeout_ms: 120_000, poll_interval_ms: 3_000 }),
        ) is Ok,
        config_validate_spec(
            (SmsSolverServiceConfig { timeout_ms: 300_000, poll_interval_ms: 5_000 }),
        ) is Ok,
        forall|c: SmsSolverServiceConfig|
            c.timeout_ms < MIN_TIMEOUT_MS ==> #[trigger] config_validate_spec(c) matches Err(
                ConfigError::TimeoutTooShort { .. },
            ),
        forall|c: SmsSolverServiceConfig|
            c.timeout_ms >= MIN_TIMEOUT_MS && c.poll_interval_ms < MIN_POLL_INTERVAL_MS
                ==> #[trigger] config_validate_spec(c) matches Err(
                ConfigError::PollIntervalTooShort { .. },
            ),
        forall|c: SmsSolverServiceConfig|
            c.timeout_ms >= MIN_TIMEOUT_MS && c.poll_interval_ms >= MIN_POLL_INTERVAL_MS
                && c.poll_interval_ms >= c.timeout_ms ==> #[trigger] config_validate_spec(c)
                matches Err(ConfigError::PollIntervalExceedsTimeout { .. }),
        forall|c: SmsSolverServiceConfig|
            c.timeout_ms >= MIN_TIMEOUT_MS && c.poll_interval_ms >= MIN_POLL_INTERVAL_MS
                && c.poll_interval_ms < c.timeout_ms ==> #[trigger] config_validate_spec(c) is Ok,
{
}

/// Builder for `SmsSolverServiceConfig`, seeded with the balanced preset.
#[derive(Debug, Clone, Copy, PartialEq, Eq, Structural)]
pub struct SmsSolverServiceConfigBuilder {
    timeout_ms: u64,
    poll_interval_ms: u64,
}

impl SmsSolverServiceConfigBuilder {
    /// The timeout the builder currently holds, in milliseconds.
    pub closed spec fn timeout_ms(&self) -> u64 {
        self.timeout_ms
    }

    /// The poll interval the builder currently holds, in milliseconds.
    pub closed spec fn poll_interval_ms(&self) -> u64 {
        self.poll_interval_ms
    }

    /// A builder holding the balanced preset.
    pub fn new() -> (r: Self)
        ensures
            r.timeout_ms() == 120_000,
            r.poll_interval_ms() == 3_000,
    {
        SmsSolverServiceConfigBuilder { timeout_ms: 120_000, poll_interval_ms: 3_000 }
    }

    /// Set the timeout, in milliseconds.
    pub fn timeout(self, timeout_ms: u64) -> (r: Self)
        ensures
            r.timeout_ms() == timeout_ms,
            r.poll_interval_ms() == self.poll_interval_ms(),
    {
        SmsSolverServiceConfigBuilder { timeout_ms, ..self }
    }

    /// Set the poll interval, in milliseconds.
    pub fn poll_interval(self, poll_interval_ms: u64) -> (r: Self)
        ensures
            r.poll_interval_ms() == poll_interval_ms,
            r.timeout_ms() == self.timeout_ms(),
    {
        SmsSolverServiceConfigBuilder { poll_interval_ms, ..self }
    }

    /// Build without validating.
    pub fn build(self) -> (r: SmsSolverServiceConfig)
        ensures
            r.timeout_ms == self.timeout_ms(),
            r.poll_interval_ms == self.poll_interval_ms(),
    {
        SmsSolverServiceConfig {
            timeout_ms: self.timeout_ms,
            poll_interval_ms: self.poll_interval_ms,
        }
    }

    /// Build and validate; the configuration is returned only if it passes
    /// the three validation rules.
    pub fn try_build(self) -> (r: Result<SmsSolverServiceConfig, ConfigError>)
        ensures
            ({
                let c = SmsSolverServiceConfig {
                    timeout_ms: self.timeout_ms(),
                    poll_interval_ms: self.poll_interval_ms(),
                };
                match config_validate_spec(c) {
                    Ok(_) => r == Ok::<SmsSolverServiceConfig, ConfigError>(c),
                    Err(e) => r == Err::<SmsSolverServiceConfig, ConfigError>(e),
                }
            }),
    {
        let config = self.build();
        match config.validate() {
            Ok(_) => Ok(config),
            Err(e) => Err(e),
        }
    }
}

impl Default for SmsSolverServiceConfigBuilder {
    /// A builder holding the balanced preset.
    fn default() -> (r: Self)
        ensures
            r.timeout_ms() == 120_000,
            r.poll_interval_ms() == 3_000,
    {
        SmsSolverServiceConfigBuilder::new()
    }
}

/// Configuration for the basic polling service: the same pair without
/// validation rules.
#[derive(Debug, Clone, Copy, PartialEq, Eq, Structural)]
pub struct SmsServiceConfig {
    /// Maximum time to wait for a code before timing out, in milliseconds.
    pub wait_sms_code_timeout_ms: u64,
    /// Pause between polling attempts, in milliseconds.
    pub poll_interval_ms: u64,
}

impl SmsServiceConfig {
    /// Start a builder, seeded with the defaults.
    pub fn builder() -> (r: SmsServiceConfigBuilder)
        ensures
            r.timeout_ms() == 120_000,
            r.poll_interval_ms() == 3_000,
    {
        SmsServiceConfigBuilder::new()
    }

    /// This configuration with another timeout.
    pub fn with_timeout(self, timeout_ms: u64) -> (r: Self)
        ensures
            r.wait_sms_code_timeout_ms == timeout_ms,
            r.poll_interval_ms == self.poll_interval_ms,
    {
        SmsServiceConfig { wait_sms_code_timeout_ms: timeout_ms, ..self }
    }

    /// This configuration with another poll interval.
    pub fn with_poll_interval(self, poll_interval_ms: u64) -> (r: Self)
        ensures
            r.poll_interval_ms == poll_interval_ms,
            r.wait_sms_code_timeout_ms == self.wait_sms_code_timeout_ms,
    {
        SmsServiceConfig { poll_interval_ms, ..self }
    }
}

impl Default for SmsServiceConfig {
    /// Two-minute timeout, three-second polls.
    fn default() -> (r: Self)
        ensures
            r == (SmsServiceConfig { wait_sms_code_timeout_ms: 120_000, poll_interval_ms: 3_000 }),
    {
        SmsServiceConfig { wait_sms_code_timeout_ms: 120_000, poll_interval_ms: 3_000 }
    }
}

/// Builder for `SmsServiceConfig`.
#[derive(Debug, Clone, Copy, PartialEq, Eq, Structural)]
pub struct SmsServiceConfigBuilder {
    timeout_ms: u64,
    poll_interval_ms: u64,
}

impl SmsServiceConfigBuilder {
    /// The timeout the builder currently holds, in milliseconds.
    pub closed spec fn timeout_ms(&self) -> u64 {
        self.timeout_ms
    }

    /// The poll interval the builder currently holds, in milliseconds.
    pub closed spec fn poll_interval_ms(&self) -> u64 {
        self.poll_interval_ms
    }

    /// A builder holding the defaults.
    pub fn new() -> (r: Self)
        ensures
            r.timeout_ms() == 120_000,
            r.poll_interval_ms() == 3_000,
    {
        SmsServiceConfigBuilder { timeout_ms: 120_000, poll_interval_ms: 3_000 }
    }

    /// Set the timeout, in milliseconds.
    pub fn timeout(self, timeout_ms: u64) -> (r: Self)
        ensures
            r.timeout_ms() == timeout_ms,
            r.poll_interval_ms() == self.poll_interval_ms(),
    {
        SmsServiceConfigBuilder { timeout_ms, ..self }
    }

    /// Set the poll interval, in milliseconds.
    pub fn poll_interval(self, poll_interval_ms: u64) -> (r: Self)
        ensures
            r.poll_interval_ms() == poll_interval_ms,
            r.timeout_ms() == self.timeout_ms(),
    {
        SmsServiceConfigBuilder { poll_interval_ms, ..self }
    }

    /// Build the configuration.
    pub fn build(self) -> (r: SmsServiceConfig)
        ensures
            r.wait_sms_code_timeout_ms == self.timeout_ms(),
            r.poll_interval_ms == self.poll_interval_ms(),
    {
        SmsServiceConfig {
            wait_sms_code_timeout_ms: self.timeout_ms,
            poll_interval_ms: self.poll_interval_ms,
        }
    }
}

impl Default for SmsServiceConfigBuilder {
    /// A builder holding the defaults.
    fn default() -> (r: Self)
        ensures
            r.timeout_ms() == 120_000,
            r.poll_interval_ms() == 3_000,
    {
        SmsServiceConfigBuilder::new()
    }
}

} // verus!
