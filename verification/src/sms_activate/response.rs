//! Response classification for the SMS Activate API: an answer is either a
//! payload or one of the dialect's error tokens.

use vstd::prelude::*;

use super::errors::{code_matches, no_error_token, parse_sms_activate_error,
    SmsActivateServiceError};
use crate::text::trim_spec;

verus! {

/// An API answer: the decoded payload, or the service's error.
#[derive(Debug)]
pub enum SmsActivateResponse<T> {
    Success(T),
    Error(SmsActivateServiceError),
}

impl<T> SmsActivateResponse<T> {
    /// The payload, or the error as `Err`.
    pub fn into_result(self) -> (r: Result<T, SmsActivateServiceError>)
        ensures
            match self {
                SmsActivateResponse::Success(data) => r matches Ok(d) && d == data,
                SmsActivateResponse::Error(e) => r matches Err(f) && f == e,
            },
    {
        match self {
            SmsActivateResponse::Success(data) => Ok(data),
            SmsActivateResponse::Error(e) => Err(e),
        }
    }

    /// Whether the answer carries a payload.
    pub fn is_success(&self) -> (r: bool)
        ensures
            r == (self matches SmsActivateResponse::Success(_)),
    {
        match self {
            SmsActivateResponse::Success(_) => true,
            SmsActivateResponse::Error(_) => false,
        }
    }

    /// The payload, if the answer carries one.
    pub fn as_success(&self) -> (r: Option<&T>)
        ensures
            match self {
                SmsActivateResponse::Success(data) => r matches Some(d) && d == data,
                SmsActivateResponse::Error(_) => r is None,
            },
    {
        match self {
            SmsActivateResponse::Success(data) => Some(data),
            SmsActivateResponse::Error(_) => None,
        }
    }
}

/// An answer of the plain-text `setStatus` call: the raw text on success,
/// or the service's error.
#[derive(Debug)]
pub enum SmsActivateTextResponse {
    Success(String),
    Error(SmsActivateServiceError),
}

impl SmsActivateTextResponse {
    /// Classify raw response text: an error token becomes `Error`, any
    /// other text is `Success` verbatim.
    pub fn from_text(text: &str) -> (r: Self)
        ensures
            match r {
                SmsActivateTextResponse::Success(s) => s@ == text@ && no_error_token(
                    trim_spec(text@),
                ),
                SmsActivateTextResponse::Error(e) => code_matches(trim_spec(text@), e.code)
                    && e.raw@ == text@,
            },
    {
        match parse_sms_activate_error(text) {
            Some(error) => SmsActivateTextResponse::Error(error),
            None => SmsActivateTextResponse::Success(text.to_owned()),
        }
    }

    /// The raw text, or the error as `Err`.
    pub fn into_result(self) -> (r: Result<String, SmsActivateServiceError>)
        ensures
            match self {
                SmsActivateTextResponse::Success(s) => r matches Ok(t) && t == s,
                SmsActivateTextResponse::Error(e) => r matches Err(f) && f == e,
            },
    {
        match self {
            SmsActivateTextResponse::Success(text) => Ok(text),
            SmsActivateTextResponse::Error(e) => Err(e),
        }
    }
}

} // verus!
