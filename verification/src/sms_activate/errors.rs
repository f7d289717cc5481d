//! Error taxonomy of the SMS Activate backend: the closed set of error
//! tokens its API answers with, each classified on both retryability axes,
//! and the client-level error type.

use vstd::prelude::*;

use crate::api_text::{banned_payload, error_shaped, parse_banned, parse_wrong_max_price,
    price_payload};
use crate::errors::RetryableError;
use crate::text::{str_eq, trim_spec, trim_str};
use crate::types::{Country, TaskId};

verus! {

/// Error codes returned by the SMS Activate API.
#[derive(Debug)]
pub enum SmsActivateErrorCode {
    /// No numbers available for the requested country and service.
    NoNumbers,
    /// Internal SQL error on the service side.
    ErrorSql,
    /// Account blocked by channel limits (temporary).
    ChannelsLimit,
    /// Activation with this id does not exist.
    NoActivation,
    /// Invalid API key.
    BadKey,
    /// Incorrect action.
    BadAction,
    /// Order already exists.
    OrderAlreadyExists,
    /// Incorrect service code.
    BadService,
    /// Incorrect excluding prefixes.
    WrongExceptionPhone,
    /// Account banned until the given datetime.
    Banned { until: String },
    /// Maximum price below the allowed minimum, which is given as decimal
    /// text when the token carries one.
    WrongMaxPrice { min: Option<String> },
    /// Not allowed to cancel within the first two minutes.
    EarlyCancelDenied,
    /// Incorrect status.
    BadStatus,
    /// Invalid activation id.
    WrongActivationId,
    /// An error-shaped token this taxonomy does not know.
    Unknown { raw: String },
}

/// Whether `s` is one of the bare (parameterless) error tokens.
pub open spec fn simple_code(s: Seq<char>) -> bool {
    ||| s == "NO_NUMBERS"@
    ||| s == "ERROR_SQL"@
    ||| s == "CHANNELS_LIMIT"@
    ||| s == "NO_ACTIVATION"@
    ||| s == "BAD_KEY"@
    ||| s == "BAD_ACTION"@
    ||| s == "ORDER_ALREADY_EXISTS"@
    ||| s == "BAD_SERVICE"@
    ||| s == "WRONG_EXCEPTION_PHONE"@
    ||| s == "EARLY_CANCEL_DENIED"@
    ||| s == "BAD_STATUS"@
    ||| s == "WRONG_ACTIVATION_ID"@
}

/// Whether `code` is the classification of the (trimmed) response text `s`:
/// a bare token gives its own variant; a `BANNED` form gives `Banned` with
/// the quoted datetime; a `WRONG_MAX_PRICE` form gives `WrongMaxPrice` with
/// the decimal; any other error-shaped text is `Unknown`, kept verbatim.
pub open spec fn code_matches(s: Seq<char>, code: SmsActivateErrorCode) -> bool {
    match code {
        SmsActivateErrorCode::NoNumbers => s == "NO_NUMBERS"@,
        SmsActivateErrorCode::ErrorSql => s == "ERROR_SQL"@,
        SmsActivateErrorCode::ChannelsLimit => s == "CHANNELS_LIMIT"@,
        SmsActivateErrorCode::NoActivation => s == "NO_ACTIVATION"@,
        SmsActivateErrorCode::BadKey => s == "BAD_KEY"@,
        SmsActivateErrorCode::BadAction => s == "BAD_ACTION"@,
        SmsActivateErrorCode::OrderAlreadyExists => s == "ORDER_ALREADY_EXISTS"@,
        SmsActivateErrorCode::BadService => s == "BAD_SERVICE"@,
        SmsActivateErrorCode::WrongExceptionPhone => s == "WRONG_EXCEPTION_PHONE"@,
        SmsActivateErrorCode::EarlyCancelDenied => s == "EARLY_CANCEL_DENIED"@,
        SmsActivateErrorCode::BadStatus => s == "BAD_STATUS"@,
        SmsActivateErrorCode::WrongActivationId => s == "WRONG_ACTIVATION_ID"@,
        SmsActivateErrorCode::Banned { until } => !simple_code(s) && banned_payload(s)
            == Some(until@),
        SmsActivateErrorCode::WrongMaxPrice { min } => !simple_code(s) && banned_payload(s)
            is None && (min matches Some(m) && price_payload(s) == Some(m@)),
        SmsActivateErrorCode::Unknown { raw } => raw@ == s && !simple_code(s) && banned_payload(
            s,
        ) is None && price_payload(s) is None && error_shaped(s),
    }
}

/// Whether the (trimmed) response text is no error token at all.
pub open spec fn no_error_token(s: Seq<char>) -> bool {
    &&& !simple_code(s)
    &&& banned_payload(s) is None
    &&& price_payload(s) is None
    &&& !error_shaped(s)
}

impl SmsActivateErrorCode {
    /// The API token of this code (for `Unknown`, the text as received).
    pub open spec fn code_name_spec(&self) -> Seq<char> {
        match self {
            SmsActivateErrorCode::NoNumbers => "NO_NUMBERS"@,
            SmsActivateErrorCode::ErrorSql => "ERROR_SQL"@,
            SmsActivateErrorCode::ChannelsLimit => "CHANNELS_LIMIT"@,
            SmsActivateErrorCode::NoActivation => "NO_ACTIVATION"@,
            SmsActivateErrorCode::BadKey => "BAD_KEY"@,
            SmsActivateErrorCode::BadAction => "BAD_ACTION"@,
            SmsActivateErrorCode::OrderAlreadyExists => "ORDER_ALREADY_EXISTS"@,
            SmsActivateErrorCode::BadService => "BAD_SERVICE"@,
            SmsActivateErrorCode::WrongExceptionPhone => "WRONG_EXCEPTION_PHONE"@,
            SmsActivateErrorCode::Banned { .. } => "BANNED"@,
            SmsActivateErrorCode::WrongMaxPrice { .. } => "WRONG_MAX_PRICE"@,
            SmsActivateErrorCode::EarlyCancelDenied => "EARLY_CANCEL_DENIED"@,
            SmsActivateErrorCode::BadStatus => "BAD_STATUS"@,
            SmsActivateErrorCode::WrongActivationId => "WRONG_ACTIVATION_ID"@,
            SmsActivateErrorCode::Unknown { raw } => raw@,
        }
    }

    /// The API token of this code.
    pub fn code_name(&self) -> (r: &str)
        ensures
            r@ == self.code_name_spec(),
    {
        match self {
            SmsActivateErrorCode::NoNumbers => "NO_NUMBERS",
            SmsActivateErrorCode::ErrorSql => "ERROR_SQL",
            SmsActivateErrorCode::ChannelsLimit => "CHANNELS_LIMIT",
            SmsActivateErrorCode::NoActivation => "NO_ACTIVATION",
            SmsActivateErrorCode::BadKey => "BAD_KEY",
            SmsActivateErrorCode::BadAction => "BAD_ACTION",
            SmsActivateErrorCode::OrderAlreadyExists => "ORDER_ALREADY_EXISTS",
            SmsActivateErrorCode::BadService => "BAD_SERVICE",
            SmsActivateErrorCode::WrongExceptionPhone => "WRONG_EXCEPTION_PHONE",
            SmsActivateErrorCode::Banned { .. } => "BANNED",
            SmsActivateErrorCode::WrongMaxPrice { .. } => "WRONG_MAX_PRICE",
            SmsActivateErrorCode::EarlyCancelDenied => "EARLY_CANCEL_DENIED",
            SmsActivateErrorCode::BadStatus => "BAD_STATUS",
            SmsActivateErrorCode::WrongActivationId => "WRONG_ACTIVATION_ID",
            SmsActivateErrorCode::Unknown { raw } => raw.as_str(),
        }
    }

    /// The human-readable description of this code.
    pub open spec fn description_spec(&self) -> Seq<char> {
        match self {
            SmsActivateErrorCode::NoNumbers => "No numbers available"@,
            SmsActivateErrorCode::ErrorSql => "Internal SQL error on service side"@,
            SmsActivateErrorCode::ChannelsLimit => "Account blocked by channel limits"@,
            SmsActivateErrorCode::NoActivation => "Activation does not exist"@,
            SmsActivateErrorCode::BadKey => "Invalid API key"@,
            SmsActivateErrorCode::BadAction => "Incorrect action"@,
            SmsActivateErrorCode::OrderAlreadyExists => "Order already exists"@,
            SmsActivateErrorCode::BadService => "Incorrect service code"@,
            SmsActivateErrorCode::WrongExceptionPhone => "Incorrect excluding prefixes"@,
            SmsActivateErrorCode::Banned { until } => "Account banned until "@ + until@,
            SmsActivateErrorCode::WrongMaxPrice { min } => match min {
                Some(v) => "Maximum price is less than allowed minimum: "@ + v@,
                None => "Maximum price is less than allowed minimum"@,
            },
            SmsActivateErrorCode::EarlyCancelDenied =>
                "Not allowed to cancel within first 2 minutes"@,
            SmsActivateErrorCode::BadStatus => "Incorrect status"@,
            SmsActivateErrorCode::WrongActivationId => "Invalid activation ID"@,
            SmsActivateErrorCode::Unknown { raw } => "Unknown error: "@ + raw@,
        }
    }

    /// Render the human-readable description.
    pub fn description(&self) -> (r: String)
        ensures
            r@ == self.description_spec(),
    {
        match self {
            SmsActivateErrorCode::NoNumbers => String::from_str("No numbers available"),
            SmsActivateErrorCode::ErrorSql => String::from_str(
                "Internal SQL error on service side",
            ),
            SmsActivateErrorCode::ChannelsLimit => String::from_str(
                "Account blocked by channel limits",
            ),
            SmsActivateErrorCode::NoActivation => String::from_str("Activation does not exist"),
            SmsActivateErrorCode::BadKey => String::from_str("Invalid API key"),
            SmsActivateErrorCode::BadAction => String::from_str("Incorrect action"),
            SmsActivateErrorCode::OrderAlreadyExists => String::from_str("Order already exists"),
            SmsActivateErrorCode::BadService => String::from_str("Incorrect service code"),
            SmsActivateErrorCode::WrongExceptionPhone => String::from_str(
                "Incorrect excluding prefixes",
            ),
            SmsActivateErrorCode::Banned { until } => {
                let mut r = String::from_str("Account banned until ");
                r.append(until.as_str());
                r
            },
            SmsActivateErrorCode::WrongMaxPrice { min } => match min {
                Some(v) => {
                    let mut r = String::from_str(
                        "Maximum price is less than allowed minimum: ",
                    );
                    r.append(v.as_str());
                    r
                },
                None => String::from_str("Maximum price is less than allowed minimum"),
            },
            SmsActivateErrorCode::EarlyCancelDenied => String::from_str(
                "Not allowed to cancel within first 2 minutes",
            ),
            SmsActivateErrorCode::BadStatus => String::from_str("Incorrect status"),
            SmsActivateErrorCode::WrongActivationId => String::from_str("Invalid activation ID"),
            SmsActivateErrorCode::Unknown { raw } => {
                let mut r = String::from_str("Unknown error: ");
                r.append(raw.as_str());
                r
            },
        }
    }

    /// Classify raw API response text. The text is trimmed; a bare token, a
    /// `BANNED:'…'` form or a `WRONG_MAX_PRICE:…` form yields its variant;
    /// other error-shaped text yields `Unknown`; anything else is not an
    /// error.
    pub fn from_raw(raw: &str) -> (r: Option<Self>)
        ensures
            match r {
                Some(code) => code_matches(trim_spec(raw@), code),
                None => no_error_token(trim_spec(raw@)),
            },
    {
        let s = trim_str(raw);
        if str_eq(s, "NO_NUMBERS") {
            return Some(SmsActivateErrorCode::NoNumbers);
        }
        if str_eq(s, "ERROR_SQL") {
            return Some(SmsActivateErrorCode::ErrorSql);
        }
        if str_eq(s, "CHANNELS_LIMIT") {
            return Some(SmsActivateErrorCode::ChannelsLimit);
        }
        if str_eq(s, "NO_ACTIVATION") {
            return Some(SmsActivateErrorCode::NoActivation);
        }
        if str_eq(s, "BAD_KEY") {
            return Some(SmsActivateErrorCode::BadKey);
        }
        if str_eq(s, "BAD_ACTION") {
            return Some(SmsActivateErrorCode::BadAction);
        }
        if str_eq(s, "ORDER_ALREADY_EXISTS") {
            return Some(SmsActivateErrorCode::OrderAlreadyExists);
        }
        if str_eq(s, "BAD_SERVICE") {
            return Some(SmsActivateErrorCode::BadService);
        }
        if str_eq(s, "WRONG_EXCEPTION_PHONE") {
            return Some(SmsActivateErrorCode::WrongExceptionPhone);
        }
        if str_eq(s, "EARLY_CANCEL_DENIED") {
            return Some(SmsActivateErrorCode::EarlyCancelDenied);
        }
        if str_eq(s, "BAD_STATUS") {
            return Some(SmsActivateErrorCode::BadStatus);
        }
        if str_eq(s, "WRONG_ACTIVATION_ID") {
            return Some(SmsActivateErrorCode::WrongActivationId);
        }
        if let Some(until) = parse_banned(s) {
            return Some(SmsActivateErrorCode::Banned { until });
        }
        if let Some(min) = parse_wrong_max_price(s) {
            return Some(SmsActivateErrorCode::WrongMaxPrice { min: Some(min) });
        }
        if looks_like(s) {
            return Some(SmsActivateErrorCode::Unknown { raw: s.to_owned() });
        }
        None
    }

    /// Whether this error is transient, so that re-issuing the same call
    /// may succeed: only missing inventory, an internal service error, and
    /// a channel limit.
    pub open spec fn retryable_spec(&self) -> bool {
        match self {
            SmsActivateErrorCode::NoNumbers
            | SmsActivateErrorCode::ErrorSql
            | SmsActivateErrorCode::ChannelsLimit => true,
            _ => false,
        }
    }

    /// Whether re-issuing the same call may succeed.
    pub fn is_retryable(&self) -> (r: bool)
        ensures
            r == self.retryable_spec(),
    {
        match self {
            SmsActivateErrorCode::NoNumbers
            | SmsActivateErrorCode::ErrorSql
            | SmsActivateErrorCode::ChannelsLimit => true,
            _ => false,
        }
    }

    /// Whether a fresh acquisition may succeed: transient errors and the
    /// activation-specific failures say yes; account or configuration
    /// problems say no; unknown tokens are conservatively no.
    pub open spec fn retry_operation_spec(&self) -> bool {
        match self {
            SmsActivateErrorCode::NoNumbers
            | SmsActivateErrorCode::ErrorSql
            | SmsActivateErrorCode::ChannelsLimit
            | SmsActivateErrorCode::NoActivation
            | SmsActivateErrorCode::WrongActivationId => true,
            _ => false,
        }
    }

    /// Whether a fresh acquisition may succeed.
    pub fn should_retry_operation(&self) -> (r: bool)
        ensures
            r == self.retry_operation_spec(),
    {
        match self {
            SmsActivateErrorCode::NoNumbers
            | SmsActivateErrorCode::ErrorSql
            | SmsActivateErrorCode::ChannelsLimit
            | SmsActivateErrorCode::NoActivation
            | SmsActivateErrorCode::WrongActivationId => true,
            _ => false,
        }
    }
}

/// Whether the text looks like an error token (see `api_text`).
fn looks_like(s: &str) -> (r: bool)
    ensures
        r == error_shaped(s@),
{
    crate::api_text::looks_like_error_code(s)
}

impl Clone for SmsActivateErrorCode {
    fn clone(&self) -> (r: Self)
        ensures
            r == *self,
    {
        match self {
            SmsActivateErrorCode::NoNumbers => SmsActivateErrorCode::NoNumbers,
            SmsActivateErrorCode::ErrorSql => SmsActivateErrorCode::ErrorSql,
            SmsActivateErrorCode::ChannelsLimit => SmsActivateErrorCode::ChannelsLimit,
            SmsActivateErrorCode::NoActivation => SmsActivateErrorCode::NoActivation,
            SmsActivateErrorCode::BadKey => SmsActivateErrorCode::BadKey,
            SmsActivateErrorCode::BadAction => SmsActivateErrorCode::BadAction,
            SmsActivateErrorCode::OrderAlreadyExists => SmsActivateErrorCode::OrderAlreadyExists,
            SmsActivateErrorCode::BadService => SmsActivateErrorCode::BadService,
            SmsActivateErrorCode::WrongExceptionPhone =>
                SmsActivateErrorCode::WrongExceptionPhone,
            SmsActivateErrorCode::Banned { until } => SmsActivateErrorCode::Banned {
                until: until.clone(),
            },
            SmsActivateErrorCode::WrongMaxPrice { min } => SmsActivateErrorCode::WrongMaxPrice {
                min: match min {
                    Some(v) => Some(v.clone()),
                    None => None,
                },
            },
            SmsActivateErrorCode::EarlyCancelDenied => SmsActivateErrorCode::EarlyCancelDenied,
            SmsActivateErrorCode::BadStatus => SmsActivateErrorCode::BadStatus,
            SmsActivateErrorCode::WrongActivationId => SmsActivateErrorCode::WrongActivationId,
            SmsActivateErrorCode::Unknown { raw } => SmsActivateErrorCode::Unknown {
                raw: raw.clone(),
            },
        }
    }
}

impl PartialEq for SmsActivateErrorCode {
    fn eq(&self, other: &Self) -> (r: bool) {
        match (self, other) {
            (SmsActivateErrorCode::NoNumbers, SmsActivateErrorCode::NoNumbers) => true,
            (SmsActivateErrorCode::ErrorSql, SmsActivateErrorCode::ErrorSql) => true,
            (SmsActivateErrorCode::ChannelsLimit, SmsActivateErrorCode::ChannelsLimit) => true,
            (SmsActivateErrorCode::NoActivation, SmsActivateErrorCode::NoActivation) => true,
            (SmsActivateErrorCode::BadKey, SmsActivateErrorCode::BadKey) => true,
            (SmsActivateErrorCode::BadAction, SmsActivateErrorCode::BadAction) => true,
            (
                SmsActivateErrorCode::OrderAlreadyExists,
                SmsActivateErrorCode::OrderAlreadyExists,
            ) => true,
            (SmsActivateErrorCode::BadService, SmsActivateErrorCode::BadService) => true,
            (
                SmsActivateErrorCode::WrongExceptionPhone,
                SmsActivateErrorCode::WrongExceptionPhone,
            ) => true,
            (
                SmsActivateErrorCode::Banned { until: a },
                SmsActivateErrorCode::Banned { until: b },
            ) => *a == *b,
            (
                SmsActivateErrorCode::WrongMaxPrice { min: a },
                SmsActivateErrorCode::WrongMaxPrice { min: b },
            ) => match (a, b) {
                (Some(x), Some(y)) => *x == *y,
                (None, None) => true,
                _ => false,
            },
            (
                SmsActivateErrorCode::EarlyCancelDenied,
                SmsActivateErrorCode::EarlyCancelDenied,
            ) => true,
            (SmsActivateErrorCode::BadStatus, SmsActivateErrorCode::BadStatus) => true,
            (
                SmsActivateErrorCode::WrongActivationId,
                SmsActivateErrorCode::WrongActivationId,
            ) => true,
            (
                SmsActivateErrorCode::Unknown { raw: a },
                SmsActivateErrorCode::Unknown { raw: b },
            ) => *a == *b,
            _ => false,
        }
    }
}

impl vstd::std_specs::cmp::PartialEqSpecImpl for SmsActivateErrorCode {
    open spec fn obeys_eq_spec() -> bool {
        true
    }

    open spec fn eq_spec(&self, other: &Self) -> bool {
        match (self, other) {
            (SmsActivateErrorCode::NoNumbers, SmsActivateErrorCode::NoNumbers) => true,
            (SmsActivateErrorCode::ErrorSql, SmsActivateErrorCode::ErrorSql) => true,
            (SmsActivateErrorCode::ChannelsLimit, SmsActivateErrorCode::ChannelsLimit) => true,
            (SmsActivateErrorCode::NoActivation, SmsActivateErrorCode::NoActivation) => true,
            (SmsActivateErrorCode::BadKey, SmsActivateErrorCode::BadKey) => true,
            (SmsActivateErrorCode::BadAction, SmsActivateErrorCode::BadAction) => true,
            (
                SmsActivateErrorCode::OrderAlreadyExists,
                SmsActivateErrorCode::OrderAlreadyExists,
            ) => true,
            (SmsActivateErrorCode::BadService, SmsActivateErrorCode::BadService) => true,
            (
                SmsActivateErrorCode::WrongExceptionPhone,
                SmsActivateErrorCode::WrongExceptionPhone,
            ) => true,
            (
                SmsActivateErrorCode::Banned { until: a },
                SmsActivateErrorCode::Banned { until: b },
            ) => a@ == b@,
            (
                SmsActivateErrorCode::WrongMaxPrice { min: a },
                SmsActivateErrorCode::WrongMaxPrice { min: b },
            ) => match (a, b) {
                (Some(x), Some(y)) => x@ == y@,
                (None, None) => true,
                _ => false,
            },
            (
                SmsActivateErrorCode::EarlyCancelDenied,
                SmsActivateErrorCode::EarlyCancelDenied,
            ) => true,
            (SmsActivateErrorCode::BadStatus, SmsActivateErrorCode::BadStatus) => true,
            (
                SmsActivateErrorCode::WrongActivationId,
                SmsActivateErrorCode::WrongActivationId,
            ) => true,
            (
                SmsActivateErrorCode::Unknown { raw: a },
                SmsActivateErrorCode::Unknown { raw: b },
            ) => a@ == b@,
            _ => false,
        }
    }
}

/// A classified error answer from the SMS Activate service: the code, its
/// description, and the raw text as received.
#[derive(Debug, Clone)]
pub struct SmsActivateServiceError {
    /// Error code from the service.
    pub code: SmsActivateErrorCode,
    /// Human-readable description of the code.
    pub description: String,
    /// The raw response text as received.
    pub raw: String,
}

impl SmsActivateServiceError {
    /// Pair a code with its description and the raw text it came from.
    pub fn new(code: SmsActivateErrorCode, raw: String) -> (r: Self)
        ensures
            r.code == code,
            r.description@ == code.description_spec(),
            r.raw@ == raw@,
    {
        let description = code.description();
        SmsActivateServiceError { code, description, raw }
    }
}

/// Classify raw API response text as a service error, if it is one.
pub fn parse_sms_activate_error(raw: &str) -> (r: Option<SmsActivateServiceError>)
    ensures
        match r {
            Some(err) => code_matches(trim_spec(raw@), err.code) && err.raw@ == raw@
                && err.description@ == err.code.description_spec(),
            None => no_error_token(trim_spec(raw@)),
        },
{
    match SmsActivateErrorCode::from_raw(raw) {
        Some(code) => Some(SmsActivateServiceError::new(code, raw.to_owned())),
        None => None,
    }
}

/// The error type of the SMS Activate client: transport and encoding
/// failures around the service's own error answers.
#[derive(Debug)]
pub enum SmsActivateError {
    /// Failed to build the HTTP client.
    BuildHttpClient { message: String },
    /// Failed to build the request URL.
    BuildRequestUrl { message: String },
    /// Failed to send the HTTP request.
    HttpRequest { message: String },
    /// Failed to read the response body.
    ParseResponse { message: String },
    /// The service answered with an error token.
    Service(SmsActivateServiceError),
    /// Waiting for the code timed out.
    SolutionTimeout { timeout_ms: u64, task_id: TaskId },
    /// The country has no SMS Activate mapping.
    CountryMapping { country: Country },
    /// The `setStatus` answer was not one of the known forms.
    FailedToParseSetStatusResponse { raw: String },
    /// The JSON body could not be decoded.
    DeserializeJson { message: String },
}

impl SmsActivateError {
    /// Task-level retryability: a transient service token or any transport
    /// failure.
    pub open spec fn retryable_spec(&self) -> bool {
        match self {
            SmsActivateError::Service(error) => error.code.retryable_spec(),
            SmsActivateError::HttpRequest { .. } => true,
            _ => false,
        }
    }

    /// Operation-level retryability: what the service token says of itself;
    /// transport failures and timeouts are worth a fresh acquisition.
    pub open spec fn retry_operation_spec(&self) -> bool {
        match self {
            SmsActivateError::Service(error) => error.code.retry_operation_spec(),
            SmsActivateError::HttpRequest { .. } => true,
            SmsActivateError::SolutionTimeout { .. } => true,
            _ => false,
        }
    }
}

impl RetryableError for SmsActivateError {
    fn is_retryable(&self) -> (r: bool)
        ensures
            r == self.retryable_spec(),
    {
        match self {
            SmsActivateError::Service(error) => error.code.is_retryable(),
            SmsActivateError::HttpRequest { .. } => true,
            _ => false,
        }
    }

    fn should_retry_operation(&self) -> (r: bool)
        ensures
            r == self.retry_operation_spec(),
    {
        match self {
            SmsActivateError::Service(error) => error.code.should_retry_operation(),
            SmsActivateError::HttpRequest { .. } => true,
            SmsActivateError::SolutionTimeout { .. } => true,
            _ => false,
        }
    }
}

} // verus!
