//! Tests for the two configuration families and their validation.

use sms_solvers::config::{
    ConfigError, SmsServiceConfig, SmsServiceConfigBuilder, SmsSolverServiceConfig,
    SmsSolverServiceConfigBuilder,
};

#[test]
fn test_service_config_default() {
    let config = SmsSolverServiceConfig::default();
    assert_eq!(config.timeout_ms, 120_000);
    assert_eq!(config.poll_interval_ms, 3_000);
}

#[test]
fn test_config_presets() {
    let fast = SmsSolverServiceConfig::fast();
    assert_eq!(fast.timeout_ms, 60_000);
    assert_eq!(fast.poll_interval_ms, 1_000);

    let balanced = SmsSolverServiceConfig::balanced();
    assert_eq!(balanced.timeout_ms, 120_000);
    assert_eq!(balanced.poll_interval_ms, 3_000);

    let patient = SmsSolverServiceConfig::patient();
    assert_eq!(patient.timeout_ms, 300_000);
    assert_eq!(patient.poll_interval_ms, 5_000);
}

#[test]
fn test_config_presets_validate() {
    assert!(SmsSolverServiceConfig::fast().validate().is_ok());
    assert!(SmsSolverServiceConfig::balanced().validate().is_ok());
    assert!(SmsSolverServiceConfig::patient().validate().is_ok());
}

#[test]
fn test_config_builder() {
    let config = SmsSolverServiceConfig::builder()
        .timeout(180_000)
        .poll_interval(5_000)
        .build();

    assert_eq!(config.timeout_ms, 180_000);
    assert_eq!(config.poll_interval_ms, 5_000);
}

#[test]
fn test_config_builder_default() {
    let config = SmsSolverServiceConfigBuilder::new().build();
    assert_eq!(config.timeout_ms, 120_000);
    assert_eq!(config.poll_interval_ms, 3_000);
}

#[test]
fn test_config_with_methods() {
    let config = SmsSolverServiceConfig::default()
        .with_timeout(60_000)
        .with_poll_interval(1_000);

    assert_eq!(config.timeout_ms, 60_000);
    assert_eq!(config.poll_interval_ms, 1_000);
}

#[test]
fn test_config_validation_success() {
    let config = SmsSolverServiceConfig::default();
    assert!(config.validate().is_ok());
}

#[test]
fn test_config_validation_timeout_too_short() {
    let config = SmsSolverServiceConfig::builder().timeout(5_000).build();
    assert!(matches!(
        config.validate(),
        Err(ConfigError::TimeoutTooShort { .. })
    ));
}

#[test]
fn test_config_validation_poll_interval_too_short() {
    let config = SmsSolverServiceConfig::builder().poll_interval(50).build();
    assert!(matches!(
        config.validate(),
        Err(ConfigError::PollIntervalTooShort { .. })
    ));
}

#[test]
fn test_config_validation_poll_exceeds_timeout() {
    let config = SmsSolverServiceConfig::builder()
        .timeout(30_000)
        .poll_interval(60_000)
        .build();
    assert!(matches!(
        config.validate(),
        Err(ConfigError::PollIntervalExceedsTimeout { .. })
    ));
}

#[test]
fn test_try_build_success() {
    let config = SmsSolverServiceConfig::builder()
        .timeout(60_000)
        .poll_interval(2_000)
        .try_build();
    assert!(config.is_ok());
}

#[test]
fn test_try_build_failure() {
    let result = SmsSolverServiceConfig::builder()
        .timeout(10_000)
        .poll_interval(20_000)
        .try_build();
    assert!(result.is_err());
}

#[test]
fn service_test_service_config_default() {
    let config = SmsServiceConfig::default();
    assert_eq!(config.wait_sms_code_timeout_ms, 120_000);
    assert_eq!(config.poll_interval_ms, 3_000);
}

#[test]
fn service_test_config_builder() {
    let config = SmsServiceConfig::builder()
        .timeout(180_000)
        .poll_interval(5_000)
        .build();

    assert_eq!(config.wait_sms_code_timeout_ms, 180_000);
    assert_eq!(config.poll_interval_ms, 5_000);
}

#[test]
fn service_test_config_builder_default() {
    let config = SmsServiceConfigBuilder::new().build();
    assert_eq!(config.wait_sms_code_timeout_ms, 120_000);
    assert_eq!(config.poll_interval_ms, 3_000);
}

#[test]
fn service_test_config_with_methods() {
    let config = SmsServiceConfig::default()
        .with_timeout(60_000)
        .with_poll_interval(1_000);

    assert_eq!(config.wait_sms_code_timeout_ms, 60_000);
    assert_eq!(config.poll_interval_ms, 1_000);
}
