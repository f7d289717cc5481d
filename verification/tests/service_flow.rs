//! End-to-end tests of the orchestration service and the retry decorator,
//! over a scripted provider and a scripted clock.

use std::cell::{Cell, RefCell};

use sms_solvers::{
    Country, DialCode, DialCodeDirectory, FullNumber, PollContext, Provider, RetryConfig,
    RetryableError, Sleeper, SmsCode, SmsRetryableProvider, SmsSolverService,
    SmsSolverServiceConfig, SmsSolverServiceError, TaskId,
};

#[derive(Debug, Clone)]
enum MockError {
    Generic(String),
    Transient,
}

impl RetryableError for MockError {
    fn is_retryable(&self) -> bool {
        matches!(self, MockError::Transient)
    }

    fn should_retry_operation(&self) -> bool {
        self.is_retryable()
    }
}

struct MockProvider {
    number: Option<(String, String)>,
    acquire_errors: RefCell<Vec<MockError>>,
    sms_results: Vec<Result<Option<String>, MockError>>,
    cancel_error: Option<String>,
    acquire_calls: Cell<u32>,
    poll_calls: Cell<u32>,
    cancel_calls: Cell<u32>,
}

impl MockProvider {
    fn new() -> Self {
        MockProvider {
            number: None,
            acquire_errors: RefCell::new(Vec::new()),
            sms_results: Vec::new(),
            cancel_error: None,
            acquire_calls: Cell::new(0),
            poll_calls: Cell::new(0),
            cancel_calls: Cell::new(0),
        }
    }

    fn with_number(mut self, task_id: &str, number: &str) -> Self {
        self.number = Some((task_id.to_string(), number.to_string()));
        self
    }

    fn with_sms_after_polls(mut self, polls: u32, code: &str) -> Self {
        for _ in 0..polls {
            self.sms_results.push(Ok(None));
        }
        self.sms_results.push(Ok(Some(code.to_string())));
        self
    }

    fn with_cancel_error(mut self, msg: &str) -> Self {
        self.cancel_error = Some(msg.to_string());
        self
    }

    fn with_acquire_errors(self, errors: Vec<MockError>) -> Self {
        *self.acquire_errors.borrow_mut() = errors;
        self
    }
}

impl Provider for MockProvider {
    type Error = MockError;
    type Service = ();

    fn get_phone_number(
        &self,
        _country: &Country,
        _service: &(),
    ) -> Result<(TaskId, FullNumber), MockError> {
        self.acquire_calls.set(self.acquire_calls.get() + 1);
        let mut errors = self.acquire_errors.borrow_mut();
        if !errors.is_empty() {
            return Err(errors.remove(0));
        }
        match &self.number {
            Some((task_id, number)) => {
                Ok((TaskId::new(task_id), FullNumber::new(number)))
            }
            None => Err(MockError::Generic("Not configured".to_string())),
        }
    }

    fn get_sms_code(&self, _task_id: &TaskId) -> Result<Option<SmsCode>, MockError> {
        let idx = self.poll_calls.get() as usize;
        self.poll_calls.set(self.poll_calls.get() + 1);
        match self.sms_results.get(idx) {
            Some(Ok(Some(code))) => Ok(Some(SmsCode::new(code))),
            Some(Ok(None)) => Ok(None),
            Some(Err(e)) => Err(e.clone()),
            None => Ok(None),
        }
    }

    fn finish_activation(&self, _task_id: &TaskId) -> Result<(), MockError> {
        Ok(())
    }

    fn cancel_activation(&self, _task_id: &TaskId) -> Result<(), MockError> {
        self.cancel_calls.set(self.cancel_calls.get() + 1);
        match &self.cancel_error {
            Some(msg) => Err(MockError::Generic(msg.clone())),
            None => Ok(()),
        }
    }
}

/// A scripted clock: time starts at zero and advances exactly by each
/// sleep; the cancellation flag is set up front.
struct ScriptedContext {
    now_ms: Cell<u64>,
    cancelled: Cell<bool>,
}

impl ScriptedContext {
    fn new() -> Self {
        ScriptedContext {
            now_ms: Cell::new(0),
            cancelled: Cell::new(false),
        }
    }

    fn cancelled_from_start() -> Self {
        let ctx = ScriptedContext::new();
        ctx.cancelled.set(true);
        ctx
    }
}

impl PollContext for ScriptedContext {
    fn is_cancelled(&self) -> bool {
        self.cancelled.get()
    }

    fn elapsed_ms(&self) -> u64 {
        self.now_ms.get()
    }

    fn sleep_ms(&self, duration_ms: u64) {
        self.now_ms.set(self.now_ms.get() + duration_ms);
    }
}

struct RecordingSleeper {
    slept: RefCell<Vec<u64>>,
}

impl Sleeper for RecordingSleeper {
    fn sleep_ms(&self, duration_ms: u64) {
        self.slept.borrow_mut().push(duration_ms);
    }
}

fn ukraine_directory() -> DialCodeDirectory {
    let mut d = DialCodeDirectory::new();
    d.insert(
        Country::new("UA").unwrap(),
        DialCode::new("380").unwrap(),
    );
    d
}

fn config(timeout_ms: u64, poll_interval_ms: u64) -> SmsSolverServiceConfig {
    SmsSolverServiceConfig {
        timeout_ms,
        poll_interval_ms,
    }
}

#[test]
fn test_wait_for_sms_code_success() {
    let provider = MockProvider::new()
        .with_number("task123", "380501234567")
        .with_sms_after_polls(2, "123456");

    let service = SmsSolverService::new(provider, config(60_000, 10))
        .with_dial_codes(ukraine_directory());

    let ukraine = Country::new("UA").unwrap();
    let result = service.get_number(&ukraine, &()).unwrap();
    assert_eq!(result.task_id.as_str(), "task123");
    assert_eq!(result.dial_code.as_str(), "380");
    assert_eq!(result.number.as_str(), "501234567");

    let ctx = ScriptedContext::new();
    let code = service.wait_for_sms_code(&result.task_id, &ctx).unwrap();
    assert_eq!(code.as_str(), "123456");

    // two "not yet" answers plus the delivery
    assert_eq!(service.provider().poll_calls.get(), 3);
    assert_eq!(service.provider().cancel_calls.get(), 0);
}

#[test]
fn test_wait_for_sms_code_timeout() {
    let provider = MockProvider::new().with_number("task123", "380501234567");

    let service = SmsSolverService::new(provider, config(50, 10))
        .with_dial_codes(ukraine_directory());

    let task_id = TaskId::new("task123");
    let ctx = ScriptedContext::new();
    let err = service.wait_for_sms_code(&task_id, &ctx).unwrap_err();

    match err {
        SmsSolverServiceError::SmsTimeout {
            timeout_ms,
            elapsed_ms,
            poll_count,
            task_id,
        } => {
            assert_eq!(timeout_ms, 50);
            assert!(elapsed_ms >= 50);
            assert!(poll_count > 0);
            assert!(poll_count >= 4 && poll_count <= 6);
            assert_eq!(task_id.as_str(), "task123");
        }
        other => panic!("Expected SmsTimeout, got {:?}", other),
    }
    assert_eq!(service.provider().cancel_calls.get(), 1);
}

#[test]
fn test_wait_for_sms_code_cancellation() {
    let provider = MockProvider::new().with_number("task123", "380501234567");

    let service = SmsSolverService::new(provider, config(60_000, 10))
        .with_dial_codes(ukraine_directory());

    let task_id = TaskId::new("task123");
    let ctx = ScriptedContext::cancelled_from_start();
    let err = service
        .wait_for_sms_code_cancellable(&task_id, &ctx)
        .unwrap_err();

    match err {
        SmsSolverServiceError::Cancelled {
            poll_count,
            task_id,
            ..
        } => {
            assert_eq!(poll_count, 0);
            assert_eq!(task_id.as_str(), "task123");
        }
        other => panic!("Expected Cancelled, got {:?}", other),
    }
    assert_eq!(service.provider().cancel_calls.get(), 1);
    assert_eq!(service.provider().poll_calls.get(), 0);
}

#[test]
fn test_cancel_failure_on_timeout() {
    let provider = MockProvider::new()
        .with_number("task123", "380501234567")
        .with_cancel_error("Cancel failed");

    let service = SmsSolverService::new(provider, config(50, 10))
        .with_dial_codes(ukraine_directory());

    let task_id = TaskId::new("task123");
    let ctx = ScriptedContext::new();
    let err = service.wait_for_sms_code(&task_id, &ctx).unwrap_err();

    match err {
        SmsSolverServiceError::CancelFailed { task_id, .. } => {
            assert_eq!(task_id.as_str(), "task123");
        }
        other => panic!("Expected CancelFailed, got {:?}", other),
    }
}

#[test]
fn test_permanent_poll_error_is_reported_with_flags() {
    let mut provider = MockProvider::new().with_number("task123", "380501234567");
    provider
        .sms_results
        .push(Err(MockError::Generic("boom".to_string())));

    let service = SmsSolverService::new(provider, config(60_000, 10))
        .with_dial_codes(ukraine_directory());

    let task_id = TaskId::new("task123");
    let ctx = ScriptedContext::new();
    let err = service.wait_for_sms_code(&task_id, &ctx).unwrap_err();

    match err {
        SmsSolverServiceError::Provider {
            is_retryable,
            should_retry_operation,
            ..
        } => {
            assert!(!is_retryable);
            assert!(!should_retry_operation);
        }
        other => panic!("Expected Provider error, got {:?}", other),
    }
    assert_eq!(service.provider().cancel_calls.get(), 1);
}

#[test]
fn test_transient_poll_errors_are_absorbed() {
    let mut provider = MockProvider::new().with_number("task123", "380501234567");
    provider.sms_results.push(Err(MockError::Transient));
    provider.sms_results.push(Err(MockError::Transient));
    provider
        .sms_results
        .push(Ok(Some("424242".to_string())));

    let service = SmsSolverService::new(provider, config(60_000, 10))
        .with_dial_codes(ukraine_directory());

    let task_id = TaskId::new("task123");
    let ctx = ScriptedContext::new();
    let code = service.wait_for_sms_code(&task_id, &ctx).unwrap();
    assert_eq!(code.as_str(), "424242");
    assert_eq!(service.provider().poll_calls.get(), 3);
    assert_eq!(service.provider().cancel_calls.get(), 0);
}

#[test]
fn test_get_number_missing_dial_code() {
    let provider = MockProvider::new().with_number("task123", "380501234567");
    let service = SmsSolverService::new(provider, config(60_000, 10));

    let ukraine = Country::new("UA").unwrap();
    let err = service.get_number(&ukraine, &()).unwrap_err();
    assert!(matches!(
        err,
        SmsSolverServiceError::InvalidDialCode { .. }
    ));
}

#[test]
fn test_get_number_malformed_number() {
    // the backend returns a number that does not start with the dial code
    let provider = MockProvider::new().with_number("task123", "15551234567");
    let service = SmsSolverService::new(provider, config(60_000, 10))
        .with_dial_codes(ukraine_directory());

    let ukraine = Country::new("UA").unwrap();
    let err = service.get_number(&ukraine, &()).unwrap_err();
    assert!(matches!(err, SmsSolverServiceError::NumberParse { .. }));
}

#[test]
fn test_service_builder() {
    let provider = MockProvider::new().with_number("task123", "380501234567");

    let service = SmsSolverService::builder(provider)
        .timeout(90_000)
        .poll_interval(5_000)
        .build();

    assert_eq!(service.config().timeout_ms, 90_000);
    assert_eq!(service.config().poll_interval_ms, 5_000);
}

#[test]
fn test_service_with_config_presets() {
    let fast_service = SmsSolverService::new(
        MockProvider::new(),
        SmsSolverServiceConfig::fast(),
    );
    assert_eq!(fast_service.config().timeout_ms, 60_000);
    assert_eq!(fast_service.config().poll_interval_ms, 1_000);

    let patient_service = SmsSolverService::new(
        MockProvider::new(),
        SmsSolverServiceConfig::patient(),
    );
    assert_eq!(patient_service.config().timeout_ms, 300_000);
    assert_eq!(patient_service.config().poll_interval_ms, 5_000);
}

#[test]
fn test_retry_decorator_single_attempt_on_permanent_error() {
    // a non-retryable error is returned after exactly one call, whatever
    // the budget
    let provider = MockProvider::new()
        .with_acquire_errors(vec![MockError::Generic("bad key".to_string())]);
    let sleeper = RecordingSleeper {
        slept: RefCell::new(Vec::new()),
    };
    let decorated = SmsRetryableProvider::with_config(
        provider,
        RetryConfig::default().with_max_retries(100),
        sleeper,
    );

    let ukraine = Country::new("UA").unwrap();
    let result = decorated.get_phone_number(&ukraine, &());
    assert!(result.is_err());
    assert_eq!(decorated.inner().acquire_calls.get(), 1);
}

#[test]
fn test_retry_decorator_retries_transient_errors() {
    let provider = MockProvider::new()
        .with_number("task123", "380501234567")
        .with_acquire_errors(vec![MockError::Transient, MockError::Transient]);
    let sleeper = RecordingSleeper {
        slept: RefCell::new(Vec::new()),
    };
    let decorated =
        SmsRetryableProvider::with_config(provider, RetryConfig::default(), sleeper);

    let ukraine = Country::new("UA").unwrap();
    let (task_id, _number) = decorated.get_phone_number(&ukraine, &()).unwrap();
    assert_eq!(task_id.as_str(), "task123");
    // the first call and two retries, with the documented backoff delays
    assert_eq!(decorated.inner().acquire_calls.get(), 3);

    let decorated_config = decorated.retry_config();
    assert_eq!(decorated_config.min_delay_ms, 1_000);
}

#[test]
fn test_retry_decorator_budget_exhaustion() {
    let provider = MockProvider::new()
        .with_number("task123", "380501234567")
        .with_acquire_errors(vec![
            MockError::Transient,
            MockError::Transient,
            MockError::Transient,
            MockError::Transient,
            MockError::Transient,
        ]);
    let sleeper = RecordingSleeper {
        slept: RefCell::new(Vec::new()),
    };
    let decorated = SmsRetryableProvider::with_config(
        provider,
        RetryConfig::default().with_max_retries(2),
        sleeper,
    );

    let ukraine = Country::new("UA").unwrap();
    let result = decorated.get_phone_number(&ukraine, &());
    assert!(result.is_err());
    // one call plus two retries
    assert_eq!(decorated.inner().acquire_calls.get(), 3);
}
