//! The failure taxonomy for remote calls. Nothing here is retried; every
//! failure is surfaced to the caller as descriptive text.

use vstd::prelude::*;

use crate::text::{dec_digits, u64_to_string};

verus! {

/// Everything that can go wrong between issuing a request and holding a
/// decoded response.
#[derive(Debug)]
pub enum ApiError {
    /// The service answered with a non-success status; the body is kept
    /// verbatim, as upstream error bodies usually explain the refusal.
    HttpError { status: u16, body: String },
    /// The transport could not complete the call at all.
    Network { message: String },
    /// The service answered success, but the payload was not the expected
    /// shape.
    Deserialization { message: String },
    /// A value of ours could not be encoded for the caller.
    Serialization { message: String },
}

impl ApiError {
    /// The rendering surfaced to callers, one fixed phrase per kind.
    pub open spec fn spec_message(&self) -> Seq<char> {
        match self {
            ApiError::HttpError { status, body } => "eBird API returned "@ + dec_digits(
                *status as nat,
            ) + ": "@ + body@,
            ApiError::Network { message } => "Network error: "@ + message@,
            ApiError::Deserialization { message } => "Failed to deserialize API response: "@
                + message@,
            ApiError::Serialization { message } => "Failed to serialize request parameters: "@
                + message@,
        }
    }

    /// Renders the error for the caller. The authentication key never
    /// appears in any of these texts.
    pub fn message(&self) -> (r: String)
        ensures
            r@ == self.spec_message(),
    {
        match self {
            ApiError::HttpError { status, body } => {
                let mut s = String::from_str("eBird API returned ");
                let digits = u64_to_string(*status as u64);
                s.append(digits.as_str());
                s.append(": ");
                s.append(body.as_str());
                s
            },
            ApiError::Network { message } => {
                let mut s = String::from_str("Network error: ");
                s.append(message.as_str());
                s
            },
            ApiError::Deserialization { message } => {
                let mut s = String::from_str("Failed to deserialize API response: ");
                s.append(message.as_str());
                s
            },
            ApiError::Serialization { message } => {
                let mut s = String::from_str("Failed to serialize request parameters: ");
                s.append(message.as_str());
                s
            },
        }
    }
}

} // verus!
