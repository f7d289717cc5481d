//! Error taxonomy of the Hero SMS backend: the closed set of error
//! tokens its API answers with, each classified on both retryability axes,
//! and the client-level error type.

use vstd::prelude::*;

use crate::api_text::{banned_payload, error_shaped, parse_banned, parse_wrong_max_price,
    price_payload};
use crate::errors::RetryableError;
use crate::text::{str_eq, trim_spec, trim_str};
use crate::types::{Country, TaskId};

verus! {

/// Error codes returned by the Hero SMS API.
#[derive(Debug)]
pub enum HeroSmsErrorCode {
    /// No numbers available for the requested country and service.
    NoNumbers,
    /// Internal SQL error on the service side.
    ErrorSql,
    /// Account blocked by channel limits (temporary).
    ChannelsLimit,
    /// Activation with this id does not exist.
    NoActivation,
    /// Invalid API key.
    BadKey,
    /// Incorrect action.
    BadAction,
    /// Order already exists.
    OrderAlreadyExists,
    /// Incorrect service code.
    BadService,
    /// Incorrect excluding prefixes.
    WrongExceptionPhone,
    /// Account banned until the given datetime.
    Banned { until: String },
    /// Maximum price below the allowed minimum, which is given as decimal
    /// text when the token carries one.
    WrongMaxPrice { min: Option<String> },
    /// Not allowed to cancel within the first two minutes.
    EarlyCancelDenied,
    /// Incorrect status.
    BadStatus,
    /// Invalid activation id.
    WrongActivationId,
    /// An error-shaped token this taxonomy does not know.
    Unknown { raw: String },
}

/// Whether `s` is one of the bare (parameterless) error tokens.
pub open spec fn simple_code(s: Seq<char>) -> bool {
    ||| s == "NO_NUMBERS"@
    ||| s == "ERROR_SQL"@
    ||| s == "CHANNELS_LIMIT"@
    ||| s == "NO_ACTIVATION"@
    ||| s == "BAD_KEY"@
    ||| s == "BAD_ACTION"@
    ||| s == "ORDER_ALREADY_EXISTS"@
    ||| s == "BAD_SERVICE"@
    ||| s == "WRONG_EXCEPTION_PHONE"@
    ||| s == "EARLY_CANCEL_DENIED"@
    ||| s == "BAD_STATUS"@
    ||| s == "WRONG_ACTIVATION_ID"@
}

/// Whether `code` is the classification of the (trimmed) response text `s`:
/// a bare token gives its own variant; a `BANNED` form gives `Banned` with
/// the quoted datetime; a `WRONG_MAX_PRICE` form gives `WrongMaxPrice` with
/// the decimal; any other error-shaped text is `Unknown`, kept verbatim.
pub open spec fn code_matches(s: Seq<char>, code: HeroSmsErrorCode) -> bool {
    match code {
        HeroSmsErrorCode::NoNumbers => s == "NO_NUMBERS"@,
        HeroSmsErrorCode::ErrorSql => s == "ERROR_SQL"@,
        HeroSmsErrorCode::ChannelsLimit => s == "CHANNELS_LIMIT"@,
        HeroSmsErrorCode::NoActivation => s == "NO_ACTIVATION"@,
        HeroSmsErrorCode::BadKey => s == "BAD_KEY"@,
        HeroSmsErrorCode::BadAction => s == "BAD_ACTION"@,
        HeroSmsErrorCode::OrderAlreadyExists => s == "ORDER_ALREADY_EXISTS"@,
        HeroSmsErrorCode::BadService => s == "BAD_SERVICE"@,
        HeroSmsErrorCode::WrongExceptionPhone => s == "WRONG_EXCEPTION_PHONE"@,
        HeroSmsErrorCode::EarlyCancelDenied => s == "EARLY_CANCEL_DENIED"@,
        HeroSmsErrorCode::BadStatus => s == "BAD_STATUS"@,
        HeroSmsErrorCode::WrongActivationId => s == "WRONG_ACTIVATION_ID"@,
        HeroSmsErrorCode::Banned { until } => !simple_code(s) && banned_payload(s)
            == Some(until@),
        HeroSmsErrorCode::WrongMaxPrice { min } => !simple_code(s) && banned_payload(s)
            is None && (min matches Some(m) && price_payload(s) == Some(m@)),
        HeroSmsErrorCode::Unknown { raw } => raw@ == s && !simple_code(s) && banned_payload(
            s,
        ) is None && price_payload(s) is None && error_shaped(s),
    }
}

/// Whether the (trimmed) response text is no error token at all.
pub open spec fn no_error_token(s: Seq<char>) -> bool {
    &&& !simple_code(s)
    &&& banned_payload(s) is None
    &&& price_payload(s) is None
    &&& !error_shaped(s)
}

impl HeroSmsErrorCode {
    /// The API token of this code (for `Unknown`, the text as received).
    pub open spec fn code_name_spec(&self) -> Seq<char> {
        match self {
            HeroSmsErrorCode::NoNumbers => "NO_NUMBERS"@,
            HeroSmsErrorCode::ErrorSql => "ERROR_SQL"@,
            HeroSmsErrorCode::ChannelsLimit => "CHANNELS_LIMIT"@,
            HeroSmsErrorCode::NoActivation => "NO_ACTIVATION"@,
            HeroSmsErrorCode::BadKey => "BAD_KEY"@,
            HeroSmsErrorCode::BadAction => "BAD_ACTION"@,
            HeroSmsErrorCode::OrderAlreadyExists => "ORDER_ALREADY_EXISTS"@,
            HeroSmsErrorCode::BadService => "BAD_SERVICE"@,
            HeroSmsErrorCode::WrongExceptionPhone => "WRONG_EXCEPTION_PHONE"@,
            HeroSmsErrorCode::Banned { .. } => "BANNED"@,
            HeroSmsErrorCode::WrongMaxPrice { .. } => "WRONG_MAX_PRICE"@,
            HeroSmsErrorCode::EarlyCancelDenied => "EARLY_CANCEL_DENIED"@,
            HeroSmsErrorCode::BadStatus => "BAD_STATUS"@,
            HeroSmsErrorCode::WrongActivationId => "WRONG_ACTIVATION_ID"@,
            HeroSmsErrorCode::Unknown { raw } => raw@,
        }
    }

    /// The API token of this code.
    pub fn code_name(&self) -> (r: &str)
        ensures
            r@ == self.code_name_spec(),
    {
        match self {
            HeroSmsErrorCode::NoNumbers => "NO_NUMBERS",
            HeroSmsErrorCode::ErrorSql => "ERROR_SQL",
            HeroSmsErrorCode::ChannelsLimit => "CHANNELS_LIMIT",
            HeroSmsErrorCode::NoActivation => "NO_ACTIVATION",
            HeroSmsErrorCode::BadKey => "BAD_KEY",
            HeroSmsErrorCode::BadAction => "BAD_ACTION",
            HeroSmsErrorCode::OrderAlreadyExists => "ORDER_ALREADY_EXISTS",
            HeroSmsErrorCode::BadService => "BAD_SERVICE",
            HeroSmsErrorCode::WrongExceptionPhone => "WRONG_EXCEPTION_PHONE",
            HeroSmsErrorCode::Banned { .. } => "BANNED",
            HeroSmsErrorCode::WrongMaxPrice { .. } => "WRONG_MAX_PRICE",
            HeroSmsErrorCode::EarlyCancelDenied => "EARLY_CANCEL_DENIED",
            HeroSmsErrorCode::BadStatus => "BAD_STATUS",
            HeroSmsErrorCode::WrongActivationId => "WRONG_ACTIVATION_ID",
            HeroSmsErrorCode::Unknown { raw } => raw.as_str(),
        }
    }

    /// The human-readable description of this code.
    pub open spec fn description_spec(&self) -> Seq<char> {
        match self {
            HeroSmsErrorCode::NoNumbers => "No numbers available"@,
            HeroSmsErrorCode::ErrorSql => "Internal SQL error on service side"@,
            HeroSmsErrorCode::ChannelsLimit => "Account blocked by channel limits"@,
            HeroSmsErrorCode::NoActivation => "Activation does not exist"@,
            HeroSmsErrorCode::BadKey => "Invalid API key"@,
            HeroSmsErrorCode::BadAction => "Incorrect action"@,
            HeroSmsErrorCode::OrderAlreadyExists => "Order already exists"@,
            HeroSmsErrorCode::BadService => "Incorrect service code"@,
            HeroSmsErrorCode::WrongExceptionPhone => "Incorrect excluding prefixes"@,
            HeroSmsErrorCode::Banned { until } => "Account banned until "@ + until@,
            HeroSmsErrorCode::WrongMaxPrice { min } => match min {
                Some(v) => "Maximum price is less than allowed minimum: "@ + v@,
                None => "Maximum price is less than allowed minimum"@,
            },
            HeroSmsErrorCode::EarlyCancelDenied =>
                "Not allowed to cancel within first 2 minutes"@,
            HeroSmsErrorCode::BadStatus => "Incorrect status"@,
            HeroSmsErrorCode::WrongActivationId => "Invalid activation ID"@,
            HeroSmsErrorCode::Unknown { raw } => "Unknown error: "@ + raw@,
        }
    }

    /// Render the human-readable description.
    pub fn description(&self) -> (r: String)
        ensures
            r@ == self.description_spec(),
    {
        match self {
            HeroSmsErrorCode::NoNumbers => String::from_str("No numbers available"),
            HeroSmsErrorCode::ErrorSql => String::from_str(
                "Internal SQL error on service side",
            ),
            HeroSmsErrorCode::ChannelsLimit => String::from_str(
                "Account blocked by channel limits",
            ),
            HeroSmsErrorCode::NoActivation => String::from_str("Activation does not exist"),
            HeroSmsErrorCode::BadKey => String::from_str("Invalid API key"),
            HeroSmsErrorCode::BadAction => String::from_str("Incorrect action"),
            HeroSmsErrorCode::OrderAlreadyExists => String::from_str("Order already exists"),
            HeroSmsErrorCode::BadService => String::from_str("Incorrect service code"),
            HeroSmsErrorCode::WrongExceptionPhone => String::from_str(
                "Incorrect excluding prefixes",
            ),
            HeroSmsErrorCode::Banned { until } => {
                let mut r = String::from_str("Account banned until ");
                r.append(until.as_str());
                r
            },
            HeroSmsErrorCode::WrongMaxPrice { min } => match min {
                Some(v) => {
                    let mut r = String::from_str(
                        "Maximum price is less than allowed minimum: ",
                    );
                    r.append(v.as_str());
                    r
                },
                None => String::from_str("Maximum price is less than allowed minimum"),
            },
            HeroSmsErrorCode::EarlyCancelDenied => String::from_str(
                "Not allowed to cancel within first 2 minutes",
            ),
            HeroSmsErrorCode::BadStatus => String::from_str("Incorrect status"),
            HeroSmsErrorCode::WrongActivationId => String::from_str("Invalid activation ID"),
            HeroSmsErrorCode::Unknown { raw } => {
                let mut r = String::from_str("Unknown error: ");
                r.append(raw.as_str());
                r
            },
        }
    }

    /// Classify raw API response text. The text is trimmed; a bare token, a
    /// `BANNED:'…'` form or a `WRONG_MAX_PRICE:…` form yields its variant;
    /// other error-shaped text yields `Unknown`; anything else is not an
    /// error.
    pub fn from_raw(raw: &str) -> (r: Option<Self>)
        ensures
            match r {
                Some(code) => code_matches(trim_spec(raw@), code),
                None => no_error_token(trim_spec(raw@)),
            },
    {
        let s = trim_str(raw);
        if str_eq(s, "NO_NUMBERS") {
            return Some(HeroSmsErrorCode::NoNumbers);
        }
        if str_eq(s, "ERROR_SQL") {
            return Some(HeroSmsErrorCode::ErrorSql);
        }
        if str_eq(s, "CHANNELS_LIMIT") {
            return Some(HeroSmsErrorCode::ChannelsLimit);
        }
        if str_eq(s, "NO_ACTIVATION") {
            return Some(HeroSmsErrorCode::NoActivation);
        }
        if str_eq(s, "BAD_KEY") {
            return Some(HeroSmsErrorCode::BadKey);
        }
        if str_eq(s, "BAD_ACTION") {
            return Some(HeroSmsErrorCode::BadAction);
        }
        if str_eq(s, "ORDER_ALREADY_EXISTS") {
            return Some(HeroSmsErrorCode::OrderAlreadyExists);
        }
        if str_eq(s, "BAD_SERVICE") {
            return Some(HeroSmsErrorCode::BadService);
        }
        if str_eq(s, "WRONG_EXCEPTION_PHONE") {
            return Some(HeroSmsErrorCode::WrongExceptionPhone);
        }
        if str_eq(s, "EARLY_CANCEL_DENIED") {
            return Some(HeroSmsErrorCode::EarlyCancelDenied);
        }
        if str_eq(s, "BAD_STATUS") {
            return Some(HeroSmsErrorCode::BadStatus);
        }
        if str_eq(s, "WRONG_ACTIVATION_ID") {
            return Some(HeroSmsErrorCode::WrongActivationId);
        }
        if let Some(until) = parse_banned(s) {
            return Some(HeroSmsErrorCode::Banned { until });
        }
        if let Some(min) = parse_wrong_max_price(s) {
            return Some(HeroSmsErrorCode::WrongMaxPrice { min: Some(min) });
        }
        if looks_like(s) {
            return Some(HeroSmsErrorCode::Unknown { raw: s.to_owned() });
        }
        None
    }

    /// Whether this error is transient, so that re-issuing the same call
    /// may succeed: only missing inventory, an internal service error, and
    /// a channel limit.
    pub open spec fn retryable_spec(&self) -> bool {
        match self {
            HeroSmsErrorCode::NoNumbers
            | HeroSmsErrorCode::ErrorSql
            | HeroSmsErrorCode::ChannelsLimit => true,
            _ => false,
        }
    }

    /// Whether re-issuing the same call may succeed.
    pub fn is_retryable(&self) -> (r: bool)
        ensures
            r == self.retryable_spec(),
    {
        match self {
            HeroSmsErrorCode::NoNumbers
            | HeroSmsErrorCode::ErrorSql
            | HeroSmsErrorCode::ChannelsLimit => true,
            _ => false,
        }
    }

    /// Whether a fresh acquisition may succeed: transient errors and the
    /// activation-specific failures say yes; account or configuration
    /// problems say no; unknown tokens are conservatively no.
    pub open spec fn retry_operation_spec(&self) -> bool {
        match self {
            HeroSmsErrorCode::NoNumbers
            | HeroSmsErrorCode::ErrorSql
            | HeroSmsErrorCode::ChannelsLimit
            | HeroSmsErrorCode::NoActivation
            | HeroSmsErrorCode::WrongActivationId => true,
            _ => false,
        }
    }

    /// Whether a fresh acquisition may succeed.
    pub fn should_retry_operation(&self) -> (r: bool)
        ensures
            r == self.retry_operation_spec(),
    {
        match self {
            HeroSmsErrorCode::NoNumbers
            | HeroSmsErrorCode::ErrorSql
            | HeroSmsErrorCode::ChannelsLimit
            | HeroSmsErrorCode::NoActivation
            | HeroSmsErrorCode::WrongActivationId => true,
            _ => false,
        }
    }
}

/// Whether the text looks like an error token (see `api_text`).
fn looks_like(s: &str) -> (r: bool)
    ensures
        r == error_shaped(s@),
{
    crate::api_text::looks_like_error_code(s)
}

impl Clone for HeroSmsErrorCode {
    fn clone(&self) -> (r: Self)
        ensures
            r == *self,
    {
        match self {
            HeroSmsErrorCode::NoNumbers => HeroSmsErrorCode::NoNumbers,
            HeroSmsErrorCode::ErrorSql => HeroSmsErrorCode::ErrorSql,
            HeroSmsErrorCode::ChannelsLimit => HeroSmsErrorCode::ChannelsLimit,
            HeroSmsErrorCode::NoActivation => HeroSmsErrorCode::NoActivation,
            HeroSmsErrorCode::BadKey => HeroSmsErrorCode::BadKey,
            HeroSmsErrorCode::BadAction => HeroSmsErrorCode::BadAction,
            HeroSmsErrorCode::OrderAlreadyExists => HeroSmsErrorCode::OrderAlreadyExists,
            HeroSmsErrorCode::BadService => HeroSmsErrorCode::BadService,
            HeroSmsErrorCode::WrongExceptionPhone =>
                HeroSmsErrorCode::WrongExceptionPhone,
            HeroSmsErrorCode::Banned { until } => HeroSmsErrorCode::Banned {
                until: until.clone(),
            },
            HeroSmsErrorCode::WrongMaxPrice { min } => HeroSmsErrorCode::WrongMaxPrice {
                min: match min {
                    Some(v) => Some(v.clone()),
                    None => None,
                },
            },
            HeroSmsErrorCode::EarlyCancelDenied => HeroSmsErrorCode::EarlyCancelDenied,
            HeroSmsErrorCode::BadStatus => HeroSmsErrorCode::BadStatus,
            HeroSmsErrorCode::WrongActivationId => HeroSmsErrorCode::WrongActivationId,
            HeroSmsErrorCode::Unknown { raw } => HeroSmsErrorCode::Unknown {
                raw: raw.clone(),
            },
        }
    }
}

impl PartialEq for HeroSmsErrorCode {
    fn eq(&self, other: &Self) -> (r: bool) {
        match (self, other) {
            (HeroSmsErrorCode::NoNumbers, HeroSmsErrorCode::NoNumbers) => true,
            (HeroSmsErrorCode::ErrorSql, HeroSmsErrorCode::ErrorSql) => true,
            (HeroSmsErrorCode::ChannelsLimit, HeroSmsErrorCode::ChannelsLimit) => true,
            (HeroSmsErrorCode::NoActivation, HeroSmsErrorCode::NoActivation) => true,
            (HeroSmsErrorCode::BadKey, HeroSmsErrorCode::BadKey) => true,
            (HeroSmsErrorCode::BadAction, HeroSmsErrorCode::BadAction) => true,
            (
                HeroSmsErrorCode::OrderAlreadyExists,
                HeroSmsErrorCode::OrderAlreadyExists,
            ) => true,
            (HeroSmsErrorCode::BadService, HeroSmsErrorCode::BadService) => true,
            (
                HeroSmsErrorCode::WrongExceptionPhone,
                HeroSmsErrorCode::WrongExceptionPhone,
            ) => true,
            (
                HeroSmsErrorCode::Banned { until: a },
                HeroSmsErrorCode::Banned { until: b },
            ) => *a == *b,
            (
                HeroSmsErrorCode::WrongMaxPrice { min: a },
                HeroSmsErrorCode::WrongMaxPrice { min: b },
            ) => match (a, b) {
                (Some(x), Some(y)) => *x == *y,
                (None, None) => true,
                _ => false,
            },
            (
                HeroSmsErrorCode::EarlyCancelDenied,
                HeroSmsErrorCode::EarlyCancelDenied,
            ) => true,
            (HeroSmsErrorCode::BadStatus, HeroSmsErrorCode::BadStatus) => true,
            (
                HeroSmsErrorCode::WrongActivationId,
                HeroSmsErrorCode::WrongActivationId,
            ) => true,
            (
                HeroSmsErrorCode::Unknown { raw: a },
                HeroSmsErrorCode::Unknown { raw: b },
            ) => *a == *b,
            _ => false,
        }
    }
}

impl vstd::std_specs::cmp::PartialEqSpecImpl for HeroSmsErrorCode {
    open spec fn obeys_eq_spec() -> bool {
        true
    }

    open spec fn eq_spec(&self, other: &Self) -> bool {
        match (self, other) {
            (HeroSmsErrorCode::NoNumbers, HeroSmsErrorCode::NoNumbers) => true,
            (HeroSmsErrorCode::ErrorSql, HeroSmsErrorCode::ErrorSql) => true,
            (HeroSmsErrorCode::ChannelsLimit, HeroSmsErrorCode::ChannelsLimit) => true,
            (HeroSmsErrorCode::NoActivation, HeroSmsErrorCode::NoActivation) => true,
            (HeroSmsErrorCode::BadKey, HeroSmsErrorCode::BadKey) => true,
            (HeroSmsErrorCode::BadAction, HeroSmsErrorCode::BadAction) => true,
            (
                HeroSmsErrorCode::OrderAlreadyExists,
                HeroSmsErrorCode::OrderAlreadyExists,
            ) => true,
            (HeroSmsErrorCode::BadService, HeroSmsErrorCode::BadService) => true,
            (
                HeroSmsErrorCode::WrongExceptionPhone,
                HeroSmsErrorCode::WrongExceptionPhone,
            ) => true,
            (
                HeroSmsErrorCode::Banned { until: a },
                HeroSmsErrorCode::Banned { until: b },
            ) => a@ == b@,
            (
                HeroSmsErrorCode::WrongMaxPrice { min: a },
                HeroSmsErrorCode::WrongMaxPrice { min: b },
            ) => match (a, b) {
                (Some(x), Some(y)) => x@ == y@,
                (None, None) => true,
                _ => false,
            },
            (
                HeroSmsErrorCode::EarlyCancelDenied,
                HeroSmsErrorCode::EarlyCancelDenied,
            ) => true,
            (HeroSmsErrorCode::BadStatus, HeroSmsErrorCode::BadStatus) => true,
            (
                HeroSmsErrorCode::WrongActivationId,
                HeroSmsErrorCode::WrongActivationId,
            ) => true,
            (
                HeroSmsErrorCode::Unknown { raw: a },
                HeroSmsErrorCode::Unknown { raw: b },
            ) => a@ == b@,
            _ => false,
        }
    }
}

/// A classified error answer from the Hero SMS service: the code, its
/// description, and the raw text as received.
#[derive(Debug, Clone)]
pub struct HeroSmsServiceError {
    /// Error code from the service.
    pub code: HeroSmsErrorCode,
    /// Human-readable description of the code.
    pub description: String,
    /// The raw response text as received.
    pub raw: String,
}

impl HeroSmsServiceError {
    /// Pair a code with its description and the raw text it came from.
    pub fn new(code: HeroSmsErrorCode, raw: String) -> (r: Self)
        ensures
            r.code == code,
            r.description@ == code.description_spec(),
            r.raw@ == raw@,
    {
        let description = code.description();
        HeroSmsServiceError { code, description, raw }
    }
}

/// Classify raw API response text as a service error, if it is one.
pub fn parse_hero_sms_error(raw: &str) -> (r: Option<HeroSmsServiceError>)
    ensures
        match r {
            Some(err) => code_matches(trim_spec(raw@), err.code) && err.raw@ == raw@
                && err.description@ == err.code.description_spec(),
            None => no_error_token(trim_spec(raw@)),
        },
{
    match HeroSmsErrorCode::from_raw(raw) {
        Some(code) => Some(HeroSmsServiceError::new(code, raw.to_owned())),
        None => None,
    }
}

/// The error type of the Hero SMS client: transport and encoding
/// failures around the service's own error answers.
#[derive(Debug)]
pub enum HeroSmsError {
    /// Failed to build the HTTP client.
    BuildHttpClient { message: String },
    /// Failed to build the request URL.
    BuildRequestUrl { message: String },
    /// Failed to send the HTTP request.
    HttpRequest { message: String },
    /// Failed to read the response body.
    ParseResponse { message: String },
    /// The service answered with an error token.
    Service(HeroSmsServiceError),
    /// Waiting for the code timed out.
    SolutionTimeout { timeout_ms: u64, task_id: TaskId },
    /// The country has no Hero SMS mapping.
    CountryMapping { country: Country },
    /// The `setStatus` answer was not one of the known forms.
    FailedToParseSetStatusResponse { raw: String },
    /// The JSON body could not be decoded.
    DeserializeJson { message: String },
}

impl HeroSmsError {
    /// Task-level retryability: a transient service token or any transport
    /// failure.
    pub open spec fn retryable_spec(&self) -> bool {
        match self {
            HeroSmsError::Service(error) => error.code.retryable_spec(),
            HeroSmsError::HttpRequest { .. } => true,
            _ => false,
        }
    }

    /// Operation-level retryability: what the service token says of itself;
    /// transport failures and timeouts are worth a fresh acquisition.
    pub open spec fn retry_operation_spec(&self) -> bool {
        match self {
            HeroSmsError::Service(error) => error.code.retry_operation_spec(),
            HeroSmsError::HttpRequest { .. } => true,
            HeroSmsError::SolutionTimeout { .. } => true,
            _ => false,
        }
    }
}

impl RetryableError for HeroSmsError {
    fn is_retryable(&self) -> (r: bool)
        ensures
            r == self.retryable_spec(),
    {
        match self {
            HeroSmsError::Service(error) => error.code.is_retryable(),
            HeroSmsError::HttpRequest { .. } => true,
            _ => false,
        }
    }

    fn should_retry_operation(&self) -> (r: bool)
        ensures
            r == self.retry_operation_spec(),
    {
        match self {
            HeroSmsError::Service(error) => error.code.should_retry_operation(),
            HeroSmsError::HttpRequest { .. } => true,
            HeroSmsError::SolutionTimeout { .. } => true,
            _ => false,
        }
    }
}

} // verus!
