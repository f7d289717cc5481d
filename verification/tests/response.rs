//! Tests for response classification of both backends.

use sms_solvers::hero_sms::errors::HeroSmsErrorCode;
use sms_solvers::hero_sms::response::HeroSmsTextResponse;
use sms_solvers::sms_activate::errors::SmsActivateErrorCode;
use sms_solvers::sms_activate::response::{SmsActivateResponse, SmsActivateTextResponse};

#[test]
fn test_text_response_success() {
    let text = "ACCESS_READY";
    let response = HeroSmsTextResponse::from_text(text);

    match response {
        HeroSmsTextResponse::Success(s) => assert_eq!(s, "ACCESS_READY"),
        HeroSmsTextResponse::Error(_) => panic!("Expected success"),
    }
}

#[test]
fn test_text_response_error() {
    let text = "BAD_KEY";
    let response = HeroSmsTextResponse::from_text(text);

    match response {
        HeroSmsTextResponse::Success(_) => panic!("Expected error"),
        HeroSmsTextResponse::Error(e) => {
            assert_eq!(e.code, HeroSmsErrorCode::BadKey);
        }
    }
}

#[test]
fn response_test_text_response_success() {
    let text = "ACCESS_READY";
    let response = SmsActivateTextResponse::from_text(text);

    match response {
        SmsActivateTextResponse::Success(s) => assert_eq!(s, "ACCESS_READY"),
        SmsActivateTextResponse::Error(_) => panic!("Expected success"),
    }
}

#[test]
fn response_test_text_response_error() {
    let text = "BAD_KEY";
    let response = SmsActivateTextResponse::from_text(text);

    match response {
        SmsActivateTextResponse::Success(_) => panic!("Expected error"),
        SmsActivateTextResponse::Error(e) => {
            assert_eq!(e.code, SmsActivateErrorCode::BadKey);
        }
    }
}

#[test]
fn test_response_into_result() {
    let ok: SmsActivateResponse<u32> = SmsActivateResponse::Success(7);
    assert!(ok.is_success());
    assert_eq!(ok.into_result().unwrap(), 7);

    let response = SmsActivateTextResponse::from_text("NO_NUMBERS");
    let err = response.into_result().unwrap_err();
    assert_eq!(err.code, SmsActivateErrorCode::NoNumbers);
}

#[test]
fn test_response_as_success() {
    let ok: SmsActivateResponse<u32> = SmsActivateResponse::Success(7);
    assert_eq!(ok.as_success(), Some(&7));
}

#[test]
fn test_text_response_round_trip() {
    let response = SmsActivateTextResponse::from_text("ACCESS_CANCEL");
    assert_eq!(response.into_result().unwrap(), "ACCESS_CANCEL");
}
