//! Tests for the SMS Activate verification targets and payload types.

use sms_solvers::sms_activate::services::Service;
use sms_solvers::sms_activate::types::{ActivationStatus, GetSmsResponse, SetStatusResponse,
    SmsData};

#[test]
fn test_service_code() {
    assert_eq!(Service::Whatsapp.code(), "wa");
    assert_eq!(Service::Facebook.code(), "fb");
}

#[test]
fn test_service_from_code() {
    assert_eq!(Service::from_code("wa"), Service::Whatsapp);
    assert_eq!(
        Service::from_code("custom"),
        Service::Other {
            code: "custom".to_string()
        }
    );
}

#[test]
fn test_service_all() {
    let services = Service::all();
    assert_eq!(services.len(), 5);
    assert!(services.contains(&Service::FullRent));
    assert!(services.contains(&Service::InstagramThreads));
    assert!(services.contains(&Service::Whatsapp));
    assert!(services.contains(&Service::Facebook));
    assert!(services.contains(&Service::Vfs));
}

#[test]
fn test_service_is_predefined() {
    assert!(Service::Whatsapp.is_predefined());
    assert!(Service::Facebook.is_predefined());
    assert!(!Service::Other {
        code: "custom".to_string()
    }
    .is_predefined());
}

#[test]
fn test_service_creation() {
    assert_eq!(Service::from_code("full"), Service::FullRent);
    assert_eq!(Service::from_code("ig"), Service::InstagramThreads);
    assert_eq!(Service::from_code("afp"), Service::Vfs);
}

#[test]
fn test_activation_status_code() {
    assert_eq!(ActivationStatus::RequestAnotherCode.code(), 3);
    assert_eq!(ActivationStatus::FinishActivation.code(), 6);
    assert_eq!(ActivationStatus::CancelUsedNumber.code(), 8);
}

#[test]
fn test_activation_status_code_text() {
    assert_eq!(ActivationStatus::CancelUsedNumber.code_text(), "8");
}

#[test]
fn test_set_status_response_from_raw() {
    assert_eq!(
        SetStatusResponse::from_raw("ACCESS_READY"),
        Some(SetStatusResponse::Ready)
    );
    assert_eq!(
        SetStatusResponse::from_raw("ACCESS_CANCEL"),
        Some(SetStatusResponse::Cancel)
    );
    assert_eq!(SetStatusResponse::from_raw("UNKNOWN"), None);
}

#[test]
fn test_extract_code_from_response() {
    let with_code = GetSmsResponse {
        sms: Some(SmsData {
            date_time: "2025-01-01 12:05:00".to_string(),
            code: "123456".to_string(),
            text: "Your code is: 123456".to_string(),
        }),
        call: None,
    };
    let code = with_code.extract_code().unwrap();
    assert_eq!(code.as_str(), "123456");

    let empty = GetSmsResponse {
        sms: None,
        call: None,
    };
    assert!(empty.extract_code().is_none());

    let blank_code = GetSmsResponse {
        sms: Some(SmsData {
            date_time: "2025-01-01 12:05:00".to_string(),
            code: "".to_string(),
            text: "no code".to_string(),
        }),
        call: None,
    };
    assert!(blank_code.extract_code().is_none());
}
