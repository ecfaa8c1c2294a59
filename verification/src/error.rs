//! The error taxonomy of the gateway.
//!
//! Every failure is returned to the immediate caller as a typed value;
//! nothing is retried automatically and nothing is swallowed. User
//! cancellation is *not* an error and is modeled separately by the
//! capability results, because it is an expected business outcome for some
//! capabilities.

use vstd::prelude::*;
use vstd::string::StringExecFns;

verus! {

/// A failure of the configuration handshake, of the transport, or of the
/// host API itself.
#[derive(Debug, PartialEq, Eq)]
pub enum JSApiError {
    /// The host environment exposes no navigable URL to sign.
    UrlUnavailable,
    /// The signing round trip failed at the transport level.
    NetworkError { message: String },
    /// A response did not parse into the expected shape.
    DecodeError { message: String },
    /// The host explicitly rejected the configuration handshake.
    ConfigurationRejected { host_message: String },
    /// Another caller's handshake is in flight; this caller fails fast
    /// rather than wait for it.
    StillInitializing,
    /// A request could not be put into the host-neutral representation.
    /// This is a programmer error: it cannot occur for well-formed request
    /// values.
    SerializationError { message: String },
    /// A capability entry point was rejected out of band. Capability
    /// outcomes are reported in-band through the envelope, so this is
    /// always unexpected and always surfaced.
    TransportError { message: String },
    /// The outcome string reported success but the payload was absent,
    /// violating the host contract.
    MalformedSuccess,
    /// A business-level failure reported by the host; carries the raw
    /// outcome string verbatim for diagnostics.
    ApiError { message: String },
}

impl JSApiError {
    /// A human-readable description. An [`JSApiError::ApiError`] yields the
    /// raw host outcome string unchanged; every other variant prefixes its
    /// detail with a fixed label.
    pub fn message(&self) -> (r: String)
        ensures
            match self {
                JSApiError::UrlUnavailable => r@ == "no page url available"@,
                JSApiError::NetworkError { message } => r@ == "network error: "@ + message@,
                JSApiError::DecodeError { message } => r@ == "decode error: "@ + message@,
                JSApiError::ConfigurationRejected { host_message } => r@
                    == "configuration rejected by host: "@ + host_message@,
                JSApiError::StillInitializing => r@ == "initializing"@,
                JSApiError::SerializationError { message } => r@ == "serialization error: "@
                    + message@,
                JSApiError::TransportError { message } => r@ == "transport error: "@ + message@,
                JSApiError::MalformedSuccess => r@ == "missing payload on success"@,
                JSApiError::ApiError { message } => r@ == message@,
            },
    {
        match self {
            JSApiError::UrlUnavailable => "no page url available".to_owned(),
            JSApiError::NetworkError { message } => "network error: ".to_owned().concat(
                message.as_str(),
            ),
            JSApiError::DecodeError { message } => "decode error: ".to_owned().concat(
                message.as_str(),
            ),
            JSApiError::ConfigurationRejected { host_message } => {
                "configuration rejected by host: ".to_owned().concat(host_message.as_str())
            },
            JSApiError::StillInitializing => "initializing".to_owned(),
            JSApiError::SerializationError { message } => "serialization error: ".to_owned()
                .concat(message.as_str()),
            JSApiError::TransportError { message } => "transport error: ".to_owned().concat(
                message.as_str(),
            ),
            JSApiError::MalformedSuccess => "missing payload on success".to_owned(),
            JSApiError::ApiError { message } => message.clone(),
        }
    }
}

/// An out-of-band host rejection is classified by which entry point it came
/// from: only the configuration entry point reports its failures this way,
/// so there it means the host rejected the handshake; a capability entry
/// point reports outcomes in-band, so there it is an unexpected transport
/// failure.
pub fn classify_host_rejection(during_config: bool, message: String) -> (e: JSApiError)
    ensures
        during_config ==> e == (JSApiError::ConfigurationRejected { host_message: message }),
        !during_config ==> e == (JSApiError::TransportError { message }),
{
    if during_config {
        JSApiError::ConfigurationRejected { host_message: message }
    } else {
        JSApiError::TransportError { message }
    }
}

} // verus!
