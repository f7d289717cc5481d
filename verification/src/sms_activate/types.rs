//! Payload types of the SMS Activate API calls, as plain values, and the
//! small readings the orchestration makes of them.

use vstd::prelude::*;

use crate::text::{dec_digits, u64_to_string};
use crate::types::{SmsCode, TaskId};

verus! {

/// Payload of a `getNumberV2` answer.
#[derive(Debug, Clone)]
pub struct GetPhoneNumberResponse {
    /// Activation id (task id) for this phone number.
    pub task_id: TaskId,
    /// Full phone number with country code.
    pub phone_number: String,
    /// Cost of this activation, as the decimal text the API sent.
    pub activation_cost: String,
    /// Currency code (for example 643 for RUB).
    pub currency: i64,
    /// Country calling code.
    pub country_code: String,
    /// Whether another SMS can be requested for this activation.
    pub can_get_another_sms: bool,
    /// When the activation started.
    pub activation_time: String,
    /// When the activation expires.
    pub activation_end_time: String,
    /// Mobile operator name.
    pub activation_operator: String,
}

/// Payload of a `getStatusV2` answer.
#[derive(Debug, Clone)]
pub struct GetSmsResponse {
    /// SMS data, if an SMS was received.
    pub sms: Option<SmsData>,
    /// Call data, if a voice call was received.
    pub call: Option<CallData>,
}

impl GetSmsResponse {
    /// The verification code this answer carries: the SMS code, when an SMS
    /// arrived and its code text is non-empty.
    pub fn extract_code(&self) -> (r: Option<SmsCode>)
        ensures
            match r {
                Some(c) => self.sms matches Some(s) && c@ == s.code@ && s.code@.len() > 0,
                None => match self.sms {
                    Some(s) => s.code@.len() == 0,
                    None => true,
                },
            },
    {
        match &self.sms {
            Some(sms) => {
                if sms.code.as_str().unicode_len() > 0 {
                    Some(SmsCode::new(sms.code.as_str()))
                } else {
                    None
                }
            },
            None => None,
        }
    }
}

/// The SMS of a verification message.
#[derive(Debug, Clone)]
pub struct SmsData {
    /// When the SMS was received.
    pub date_time: String,
    /// Verification code extracted from the SMS.
    pub code: String,
    /// Full SMS message text.
    pub text: String,
}

/// The call of a voice verification.
#[derive(Debug, Clone)]
pub struct CallData {
    /// Caller number.
    pub from: String,
    /// Call message text.
    pub text: String,
    /// Verification code extracted from the call.
    pub code: String,
    /// When the call was received.
    pub date_time: String,
    /// Link to the call recording, when one exists.
    pub url: Option<String>,
    /// How many times the code was parsed.
    pub parsing_count: u32,
}

/// Activation status codes of the `setStatus` call.
#[derive(Debug, Clone, Copy, PartialEq, Eq, Structural)]
pub enum ActivationStatus {
    /// Request one more code (for free).
    RequestAnotherCode,
    /// Finish the activation.
    FinishActivation,
    /// Report the number as already used and cancel the activation.
    CancelUsedNumber,
}

impl ActivationStatus {
    /// The numeric status the API expects.
    pub open spec fn code_spec(&self) -> u8 {
        match self {
            ActivationStatus::RequestAnotherCode => 3,
            ActivationStatus::FinishActivation => 6,
            ActivationStatus::CancelUsedNumber => 8,
        }
    }

    /// The numeric status the API expects.
    pub fn code(&self) -> (r: u8)
        ensures
            r == self.code_spec(),
    {
        match self {
            ActivationStatus::RequestAnotherCode => 3,
            ActivationStatus::FinishActivation => 6,
            ActivationStatus::CancelUsedNumber => 8,
        }
    }

    /// The numeric status as decimal text, for the request query.
    pub fn code_text(&self) -> (r: String)
        ensures
            r@ == dec_digits(self.code_spec() as int),
    {
        u64_to_string(self.code() as u64)
    }
}

/// Answers of the `setStatus` call.
#[derive(Debug, Clone, Copy, PartialEq, Eq, Structural)]
pub enum SetStatusResponse {
    /// Number readiness confirmed.
    Ready,
    /// Waiting for a new SMS.
    RetryGet,
    /// Service successfully activated.
    Activation,
    /// Activation cancelled.
    Cancel,
}

impl SetStatusResponse {
    /// Parse a `setStatus` answer. The text is trimmed; only the four known
    /// `ACCESS_` answers parse.
    pub fn from_raw(raw: &str) -> (r: Option<Self>)
        ensures
            match r {
                Some(SetStatusResponse::Ready) => crate::text::trim_spec(raw@)
                    == "ACCESS_READY"@,
                Some(SetStatusResponse::RetryGet) => crate::text::trim_spec(raw@)
                    == "ACCESS_RETRY_GET"@,
                Some(SetStatusResponse::Activation) => crate::text::trim_spec(raw@)
                    == "ACCESS_ACTIVATION"@,
                Some(SetStatusResponse::Cancel) => crate::text::trim_spec(raw@)
                    == "ACCESS_CANCEL"@,
                None => crate::text::trim_spec(raw@) != "ACCESS_READY"@ && crate::text::trim_spec(
                    raw@,
                ) != "ACCESS_RETRY_GET"@ && crate::text::trim_spec(raw@) != "ACCESS_ACTIVATION"@
                    && crate::text::trim_spec(raw@) != "ACCESS_CANCEL"@,
            },
    {
        let s = crate::text::trim_str(raw);
        if crate::text::str_eq(s, "ACCESS_READY") {
            Some(SetStatusResponse::Ready)
        } else if crate::text::str_eq(s, "ACCESS_RETRY_GET") {
            Some(SetStatusResponse::RetryGet)
        } else if crate::text::str_eq(s, "ACCESS_ACTIVATION") {
            Some(SetStatusResponse::Activation)
        } else if crate::text::str_eq(s, "ACCESS_CANCEL") {
            Some(SetStatusResponse::Cancel)
        } else {
            None
        }
    }
}

} // verus!
