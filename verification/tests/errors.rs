//! Tests for the backend error-token taxonomy and its parsing.

use sms_solvers::errors::RetryableError;
use sms_solvers::sms_activate::errors::{
    parse_sms_activate_error, SmsActivateError, SmsActivateErrorCode,
};

#[test]
fn test_parse_simple_errors() {
    let test_cases = vec![
        ("NO_ACTIVATION", SmsActivateErrorCode::NoActivation),
        ("ERROR_SQL", SmsActivateErrorCode::ErrorSql),
        ("BAD_KEY", SmsActivateErrorCode::BadKey),
        ("NO_NUMBERS", SmsActivateErrorCode::NoNumbers),
        ("CHANNELS_LIMIT", SmsActivateErrorCode::ChannelsLimit),
    ];

    for (input, expected) in test_cases {
        let error = parse_sms_activate_error(input).unwrap();
        assert_eq!(error.code, expected);
        assert_eq!(error.raw, input);
    }
}

#[test]
fn test_parse_banned_error() {
    let input = "BANNED:'2025-12-31 23:59:59'";
    let error = parse_sms_activate_error(input).unwrap();
    assert_eq!(
        error.code,
        SmsActivateErrorCode::Banned {
            until: "2025-12-31 23:59:59".to_string()
        }
    );
}

#[test]
fn test_parse_wrong_max_price() {
    let input = "WRONG_MAX_PRICE:10.5";
    let error = parse_sms_activate_error(input).unwrap();
    assert_eq!(
        error.code,
        SmsActivateErrorCode::WrongMaxPrice {
            min: Some("10.5".to_string())
        }
    );
}

#[test]
fn test_success_responses_not_treated_as_errors() {
    let success_responses = vec![
        "ACCESS_READY",
        "ACCESS_RETRY_GET",
        "ACCESS_ACTIVATION",
        "ACCESS_CANCEL",
    ];

    for response in success_responses {
        assert!(
            parse_sms_activate_error(response).is_none(),
            "Success response '{}' should not be treated as an error",
            response
        );
    }
}

#[test]
fn test_retryable_errors() {
    assert!(SmsActivateErrorCode::NoNumbers.is_retryable());
    assert!(SmsActivateErrorCode::ErrorSql.is_retryable());
    assert!(SmsActivateErrorCode::ChannelsLimit.is_retryable());

    assert!(!SmsActivateErrorCode::BadKey.is_retryable());
    assert!(!SmsActivateErrorCode::NoActivation.is_retryable());
}

#[test]
fn test_should_retry_operation() {
    assert!(SmsActivateErrorCode::NoActivation.should_retry_operation());
    assert!(SmsActivateErrorCode::WrongActivationId.should_retry_operation());
    assert!(!SmsActivateErrorCode::BadKey.should_retry_operation());
    assert!(!SmsActivateErrorCode::Unknown {
        raw: "NO_SUCH_THING".to_string()
    }
    .should_retry_operation());
}

#[test]
fn test_unknown_error_token() {
    let error = parse_sms_activate_error("WRONG_SOMETHING_NEW").unwrap();
    assert_eq!(
        error.code,
        SmsActivateErrorCode::Unknown {
            raw: "WRONG_SOMETHING_NEW".to_string()
        }
    );
    // conservatively not retryable on either axis
    assert!(!error.code.is_retryable());
    assert!(!error.code.should_retry_operation());
}

#[test]
fn test_plain_text_is_no_error() {
    assert!(parse_sms_activate_error("hello world").is_none());
    assert!(parse_sms_activate_error("").is_none());
}

#[test]
fn test_banned_description() {
    let code = SmsActivateErrorCode::Banned {
        until: "2025-12-31".to_string(),
    };
    assert_eq!(code.description(), "Account banned until 2025-12-31");
    assert_eq!(code.code_name(), "BANNED");
}

#[test]
fn test_banned_requires_closing_quote() {
    // an unclosed or empty BANNED form is still error-shaped, so it is
    // classified as an unknown token, not as a ban
    assert!(matches!(
        parse_sms_activate_error("BANNED:'2025-12-31").map(|e| e.code),
        Some(SmsActivateErrorCode::Unknown { .. })
    ));
    assert!(matches!(
        parse_sms_activate_error("BANNED:''").map(|e| e.code),
        Some(SmsActivateErrorCode::Unknown { .. })
    ));
    assert!(parse_sms_activate_error("BANNED: \"2025-12-31\"").unwrap().code
        == SmsActivateErrorCode::Banned {
            until: "2025-12-31".to_string()
        });
}

#[test]
fn test_wrong_max_price_needs_decimal() {
    assert!(matches!(
        parse_sms_activate_error("WRONG_MAX_PRICE:abc").map(|e| e.code),
        Some(SmsActivateErrorCode::Unknown { .. })
    ));
    let error = parse_sms_activate_error("WRONG_MAX_PRICE: 42").unwrap();
    assert_eq!(
        error.code,
        SmsActivateErrorCode::WrongMaxPrice {
            min: Some("42".to_string())
        }
    );
}

#[test]
fn test_client_error_retryability() {
    let transport = SmsActivateError::HttpRequest {
        message: "connection reset".to_string(),
    };
    assert!(transport.is_retryable());
    assert!(transport.should_retry_operation());

    let timeout = SmsActivateError::SolutionTimeout {
        timeout_ms: 120_000,
        task_id: sms_solvers::TaskId::new("t1"),
    };
    assert!(!timeout.is_retryable());
    assert!(timeout.should_retry_operation());

    let json = SmsActivateError::DeserializeJson {
        message: "bad body".to_string(),
    };
    assert!(!json.is_retryable());
    assert!(!json.should_retry_operation());
}
