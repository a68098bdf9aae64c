//! How a provider call fails.

use crate::text::{decimal, decimal_text};
use vstd::prelude::*;
use vstd::string::*;

verus! {

/// What kind of failure an upstream call met.
#[derive(Clone, Copy, Debug, PartialEq, Eq, Structural)]
pub enum UpstreamFailureClass {
    Connection,
    Timeout,
    RetryableStatus,
    ContextWindow,
    ModelUnavailable,
    Authentication,
    InvalidRequest,
    Other,
}

/// A failure of an upstream call.
#[derive(Clone, Copy, Debug, PartialEq, Eq, Structural)]
pub struct UpstreamFailure {
    pub class: UpstreamFailureClass,
    /// The HTTP status, where there was a response.
    pub status: Option<u16>,
    /// Whether another attempt may succeed.
    pub retryable: bool,
}

/// Why a call failed.
#[derive(Clone, Debug)]
pub enum FlowError {
    /// The provider failed.
    Upstream(UpstreamFailure),
    /// Something was asked for that cannot be, in these words.
    InvalidArgument(String),
    /// The relay itself failed, in these words.
    Internal(String),
    /// Something else did, in these words.
    Relay(String),
}

impl FlowError {
    pub open spec fn retryable(self) -> bool {
        match self {
            FlowError::Upstream(failure) => failure.retryable,
            _ => false,
        }
    }

    pub open spec fn class_text(self) -> Seq<char> {
        match self {
            FlowError::Upstream(failure) => match failure.class {
                UpstreamFailureClass::Connection => "connection"@,
                UpstreamFailureClass::Timeout => "timeout"@,
                UpstreamFailureClass::RetryableStatus => "retryable_status"@,
                UpstreamFailureClass::ContextWindow => "context_window"@,
                UpstreamFailureClass::ModelUnavailable => "model_unavailable"@,
                UpstreamFailureClass::Authentication => "authentication"@,
                UpstreamFailureClass::InvalidRequest => "invalid_request"@,
                UpstreamFailureClass::Other => "other"@,
            },
            _ => "relay"@,
        }
    }

    pub open spec fn summary_text(self) -> Seq<char> {
        match self {
            FlowError::Upstream(failure) => match failure.status {
                Some(status) => self.class_text() + ":http_"@ + decimal(status as nat),
                None => self.class_text(),
            },
            FlowError::InvalidArgument(words) => words@,
            FlowError::Internal(words) => words@,
            FlowError::Relay(words) => words@,
        }
    }
}

/// Whether another attempt may succeed.
pub fn error_is_retryable(error: &FlowError) -> (r: bool)
    ensures
        r == error.retryable(),
        r <==> (error matches FlowError::Upstream(failure) && failure.retryable),
{
    match error {
        FlowError::Upstream(failure) => failure.retryable,
        _ => false,
    }
}

/// Stable name of the kind of failure.
pub fn provider_error_class(error: &FlowError) -> (r: &'static str)
    ensures
        r@ == error.class_text(),
{
    match error {
        FlowError::Upstream(failure) => match failure.class {
            UpstreamFailureClass::Connection => "connection",
            UpstreamFailureClass::Timeout => "timeout",
            UpstreamFailureClass::RetryableStatus => "retryable_status",
            UpstreamFailureClass::ContextWindow => "context_window",
            UpstreamFailureClass::ModelUnavailable => "model_unavailable",
            UpstreamFailureClass::Authentication => "authentication",
            UpstreamFailureClass::InvalidRequest => "invalid_request",
            UpstreamFailureClass::Other => "other",
        },
        _ => "relay",
    }
}

/// The failure in short: its kind and its status, never what the provider wrote.
pub fn provider_error_summary(error: &FlowError) -> (r: String)
    ensures
        r@ == error.summary_text(),
{
    match error {
        FlowError::Upstream(failure) => match failure.status {
            Some(status) => provider_error_class(error).to_owned().concat(":http_").concat(
                decimal_text(status as u64).as_str(),
            ),
            None => provider_error_class(error).to_owned(),
        },
        FlowError::InvalidArgument(words) => words.clone(),
        FlowError::Internal(words) => words.clone(),
        FlowError::Relay(words) => words.clone(),
    }
}

} // verus!
