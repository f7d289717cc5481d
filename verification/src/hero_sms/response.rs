//! Response classification for the Hero SMS API: an answer is either a
//! payload or one of the dialect's error tokens.

use vstd::prelude::*;

use super::errors::{code_matches, no_error_token, parse_hero_sms_error,
    HeroSmsServiceError};
use crate::text::trim_spec;

verus! {

/// An API answer: the decoded payload, or the service's error.
#[derive(Debug)]
pub enum HeroSmsResponse<T> {
    Success(T),
    Error(HeroSmsServiceError),
}

impl<T> HeroSmsResponse<T> {
    /// The payload, or the error as `Err`.
    pub fn into_result(self) -> (r: Result<T, HeroSmsServiceError>)
        ensures
            match self {
                HeroSmsResponse::Success(data) => r matches Ok(d) && d == data,
                HeroSmsResponse::Error(e) => r matches Err(f) && f == e,
            },
    {
        match self {
            HeroSmsResponse::Success(data) => Ok(data),
            HeroSmsResponse::Error(e) => Err(e),
        }
    }

    /// Whether the answer carries a payload.
    pub fn is_success(&self) -> (r: bool)
        ensures
            r == (self matches HeroSmsResponse::Success(_)),
    {
        match self {
            HeroSmsResponse::Success(_) => true,
            HeroSmsResponse::Error(_) => false,
        }
    }

    /// The payload, if the answer carries one.
    pub fn as_success(&self) -> (r: Option<&T>)
        ensures
            match self {
                HeroSmsResponse::Success(data) => r matches Some(d) && d == data,
                HeroSmsResponse::Error(_) => r is None,
            },
    {
        match self {
            HeroSmsResponse::Success(data) => Some(data),
            HeroSmsResponse::Error(_) => None,
        }
    }
}

/// An answer of the plain-text `setStatus` call: the raw text on success,
/// or the service's error.
#[derive(Debug)]
pub enum HeroSmsTextResponse {
    Success(String),
    Error(HeroSmsServiceError),
}

impl HeroSmsTextResponse {
    /// Classify raw response text: an error token becomes `Error`, any
    /// other text is `Success` verbatim.
    pub fn from_text(text: &str) -> (r: Self)
        ensures
            match r {
                HeroSmsTextResponse::Success(s) => s@ == text@ && no_error_token(
                    trim_spec(text@),
                ),
                HeroSmsTextResponse::Error(e) => code_matches(trim_spec(text@), e.code)
                    && e.raw@ == text@,
            },
    {
        match parse_hero_sms_error(text) {
            Some(error) => HeroSmsTextResponse::Error(error),
            None => HeroSmsTextResponse::Success(text.to_owned()),
        }
    }

    /// The raw text, or the error as `Err`.
    pub fn into_result(self) -> (r: Result<String, HeroSmsServiceError>)
        ensures
            match self {
                HeroSmsTextResponse::Success(s) => r matches Ok(t) && t == s,
                HeroSmsTextResponse::Error(e) => r matches Err(f) && f == e,
            },
    {
        match self {
            HeroSmsTextResponse::Success(text) => Ok(text),
            HeroSmsTextResponse::Error(e) => Err(e),
        }
    }
}

} // verus!
