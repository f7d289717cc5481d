//! Tests for the core value objects.

use sms_solvers::types::{DialCode, DialCodeError, FullNumber, Number, NumberError, SmsCode,
    TaskId};

#[test]
fn test_task_id_from_string() {
    let id = TaskId::from("12345");
    assert_eq!(id.as_str(), "12345");
    let id2 = TaskId::from(String::from("12345"));
    assert_eq!(id2.as_str(), "12345");
    assert_eq!(id, id2);
}

#[test]
fn test_sms_code() {
    let code = SmsCode::new("123456");
    assert_eq!(code.as_str(), "123456");
}

#[test]
fn test_full_number() {
    let num = FullNumber::new("905488242474");
    assert_eq!(num.as_str(), "905488242474");
}

#[test]
fn test_full_number_with_plus_prefix() {
    let num = FullNumber::new("905488242474");
    assert_eq!(num.with_plus_prefix(), "+905488242474");

    // Already has plus prefix
    let num_with_plus = FullNumber::new("+905488242474");
    assert_eq!(num_with_plus.with_plus_prefix(), "+905488242474");
}

#[test]
fn test_full_number_starts_with_dial_code() {
    let num = FullNumber::new("905488242474");
    let dc_tr = DialCode::new("90").unwrap();
    let dc_us = DialCode::new("1").unwrap();

    assert!(num.starts_with_dial_code(&dc_tr));
    assert!(!num.starts_with_dial_code(&dc_us));

    // With plus prefix
    let num_with_plus = FullNumber::new("+905488242474");
    assert!(num_with_plus.starts_with_dial_code(&dc_tr));
}

#[test]
fn test_dial_code_valid() {
    assert!(DialCode::new("1").is_ok());
    assert!(DialCode::new("380").is_ok());
    assert!(DialCode::new("44").is_ok());
}

#[test]
fn test_dial_code_with_plus() {
    let dc = DialCode::new("+380").unwrap();
    assert_eq!(dc.as_str(), "380");
}

#[test]
fn test_dial_code_trim() {
    let dc = DialCode::new("  +7  ").unwrap();
    assert_eq!(dc.as_str(), "7");
}

#[test]
fn test_dial_code_empty() {
    assert!(matches!(DialCode::new(""), Err(DialCodeError::Empty)));
    assert!(matches!(DialCode::new("+"), Err(DialCodeError::Empty)));
}

#[test]
fn test_dial_code_non_digit() {
    assert!(matches!(DialCode::new("12a"), Err(DialCodeError::NonDigit)));
}

#[test]
fn test_number_valid() {
    assert!(Number::new("1234").is_ok());
    assert!(Number::new("12345678").is_ok());
    assert!(Number::new("12345678901234").is_ok());
}

#[test]
fn test_number_invalid_length() {
    assert!(matches!(Number::new("123"), Err(NumberError::InvalidLength)));
    assert!(matches!(
        Number::new("123456789012345"),
        Err(NumberError::InvalidLength)
    ));
}

#[test]
fn test_number_non_digit() {
    assert!(matches!(Number::new("123a456"), Err(NumberError::NonDigit)));
}

#[test]
fn test_number_leading_zero() {
    assert!(matches!(
        Number::new("01234567"),
        Err(NumberError::LeadingZero)
    ));
}

#[test]
fn test_number_from_full_number() {
    let full = FullNumber::new("905488242474");
    let dial_code = DialCode::new("90").unwrap();
    let num = Number::from_full_number(&full, &dial_code).unwrap();
    assert_eq!(num.as_str(), "5488242474");
}

#[test]
fn test_number_from_full_number_missing_dial_code() {
    let full = FullNumber::new("905488242474");
    let dial_code = DialCode::new("380").unwrap();
    assert!(matches!(
        Number::from_full_number(&full, &dial_code),
        Err(NumberError::MissingDialCode)
    ));
}

#[test]
fn test_dial_code_creation() {
    let valid_cases = [
        ("1", "1"),
        ("+1", "1"),
        ("44", "44"),
        ("+44", "44"),
        ("380", "380"),
        ("+380", "380"),
        ("  +49  ", "49"),
    ];

    for (input, expected) in valid_cases {
        let result = DialCode::new(input);
        assert!(result.is_ok(), "Dial code '{}' should be valid", input);
        assert_eq!(result.unwrap().as_str(), expected);
    }
}

#[test]
fn test_invalid_dial_codes() {
    let invalid_cases = ["", "+", "abc", "12a34", "+abc"];

    for input in invalid_cases {
        let result = DialCode::new(input);
        assert!(result.is_err(), "Dial code '{}' should be invalid", input);
    }
}

#[test]
fn test_shared_dial_codes() {
    // several countries share a dial code; the code itself is one value
    let shared_codes = ["1", "44", "61"];
    for code in shared_codes {
        assert!(DialCode::new(code).is_ok());
    }
}

#[test]
fn test_dial_code_edge_cases() {
    let dc1 = DialCode::new("1");
    assert!(dc1.is_ok());

    let dc2 = DialCode::new("1684");
    assert!(dc2.is_ok());

    let dc3 = DialCode::new("  +49  ");
    assert!(dc3.is_ok());
    assert_eq!(dc3.unwrap().as_str(), "49");
}

#[test]
fn test_dial_code_to_country() {
    let dc = DialCode::new("380").unwrap();
    let country = dc.to_country().unwrap();
    assert_eq!(country.alpha2(), "UA");

    let dc = DialCode::new("49").unwrap();
    let country = dc.to_country().unwrap();
    assert_eq!(country.alpha2(), "DE");

    // +44 is shared by multiple countries; the lookup still answers
    let dc = DialCode::new("44").unwrap();
    assert!(dc.to_country().is_ok());
}

#[test]
fn test_dial_code_to_country_us() {
    let dc = DialCode::new("1").unwrap();
    assert!(dc.to_country().is_ok());
}

#[test]
fn test_dial_code_to_country_not_found() {
    let dc = DialCode::new("99999").unwrap();
    let result = dc.to_country();
    assert!(result.is_err());
}

#[test]
fn test_dial_code_to_country_method() {
    let dc = DialCode::new("33").unwrap();
    let country = dc.to_country().unwrap();
    assert_eq!(country.alpha2(), "FR");
}

#[test]
fn test_dial_code_to_country_invalid_codes() {
    let invalid_codes = ["0", "99999", "12345", "999"];

    for code_str in invalid_codes {
        let dial_code = DialCode::new(code_str).unwrap();
        assert!(
            dial_code.to_country().is_err(),
            "Expected error for invalid dial code {}",
            code_str
        );
    }
}

#[test]
fn test_dial_code_to_country_common_codes() {
    // common, reliably unique dial codes all resolve to a country with two
    // alpha-2 letters
    let test_cases = [
        "7", "20", "27", "30", "31", "32", "33", "34", "36", "39", "40", "41", "43", "44", "45",
        "46", "47", "48", "49", "51", "52", "53", "54", "55", "56", "57", "58", "60", "61", "62",
        "63", "64", "65", "66", "81", "82", "84", "86", "90", "91", "92", "93", "94", "95", "98",
        "212", "213", "216", "218", "220", "221", "234", "254", "255", "256", "260", "263", "351",
        "352", "353", "354", "358", "370", "371", "372", "373", "374", "375", "376", "380", "381",
        "385", "386", "420", "421", "852", "853", "886", "961", "962", "963", "964", "965", "966",
        "971", "972", "974",
    ];

    for code_str in test_cases {
        let dial_code = DialCode::new(code_str).unwrap();
        let country = dial_code.to_country();
        assert!(
            country.is_ok(),
            "Failed to convert dial code {} to a country",
            code_str
        );
        assert_eq!(country.unwrap().alpha2().len(), 2);
    }
}

#[test]
fn test_number_error_messages() {
    assert_eq!(
        NumberError::NonDigit.message(),
        "number must contain only digits"
    );
    assert_eq!(
        NumberError::MissingDialCode.message(),
        "dial code not found at the beginning of the number"
    );
}

#[test]
fn test_generate_number_is_valid() {
    let n = Number::generate().unwrap();
    assert_eq!(n.as_str().len(), 10);
    assert!(n.as_str().chars().all(|c| c.is_ascii_digit()));
    assert!(!n.as_str().starts_with('0'));
}

#[test]
fn test_generate_dial_code_is_popular() {
    let d = DialCode::generate().unwrap();
    let popular = ["1", "44", "49", "7", "380", "91", "81", "61", "33", "39"];
    assert!(popular.contains(&d.as_str()));
}
