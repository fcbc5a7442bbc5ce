//! Error taxonomy.
//!
//! A closed set of failure kinds surfaced to callers, and the exact mapping
//! from HTTP status codes to kinds: 401 is authentication, 400 validation,
//! 404 not found, 429 rate limiting, and every other non-success status is an
//! API error carrying the original status and body text.

use vstd::prelude::*;

use crate::render::digits_of;
use crate::render::write_digits;
use vstd::string::StringExecFns;

verus! {

/// Mathematical model of an error value.
pub enum ErrorV {
    Authentication(Seq<char>),
    Validation(Seq<char>),
    NotFound(Seq<char>),
    RateLimit(Seq<char>),
    Network(Seq<char>),
    Api { status: u16, message: Seq<char> },
    Serialization(Seq<char>),
    Request(Seq<char>),
    Io(Seq<char>),
    Other(Seq<char>),
}

/// Failure kinds surfaced by every operation of this client.
#[derive(Debug)]
pub enum TurboDocxError {
    /// The service rejected the credentials (HTTP 401).
    Authentication(String),
    /// A precondition failed, locally or at the service (HTTP 400).
    Validation(String),
    /// The addressed resource does not exist (HTTP 404).
    NotFound(String),
    /// The service throttled the call (HTTP 429).
    RateLimit(String),
    /// The connection could not be established or broke down.
    Network(String),
    /// Any other non-success response, with its status and body text.
    Api { status: u16, message: String },
    /// A response body could not be decoded into the target type.
    Serialization(String),
    /// The request could not be built or sent.
    Request(String),
    /// A local I/O step failed.
    Io(String),
    /// Anything that fits no other kind.
    Other(String),
}

impl DeepView for TurboDocxError {
    type V = ErrorV;

    open spec fn deep_view(&self) -> ErrorV {
        match self {
            TurboDocxError::Authentication(m) => ErrorV::Authentication(m@),
            TurboDocxError::Validation(m) => ErrorV::Validation(m@),
            TurboDocxError::NotFound(m) => ErrorV::NotFound(m@),
            TurboDocxError::RateLimit(m) => ErrorV::RateLimit(m@),
            TurboDocxError::Network(m) => ErrorV::Network(m@),
            TurboDocxError::Api { status, message } => ErrorV::Api {
                status: *status,
                message: message@,
            },
            TurboDocxError::Serialization(m) => ErrorV::Serialization(m@),
            TurboDocxError::Request(m) => ErrorV::Request(m@),
            TurboDocxError::Io(m) => ErrorV::Io(m@),
            TurboDocxError::Other(m) => ErrorV::Other(m@),
        }
    }
}

/// The error that a response with the given non-success status and body maps to.
pub open spec fn status_error(status: u16, body: Seq<char>) -> ErrorV {
    if status == 401 {
        ErrorV::Authentication(body)
    } else if status == 400 {
        ErrorV::Validation(body)
    } else if status == 404 {
        ErrorV::NotFound(body)
    } else if status == 429 {
        ErrorV::RateLimit(body)
    } else {
        ErrorV::Api { status, message: body }
    }
}

/// A status is a success exactly when it lies in the 2xx range.
pub open spec fn is_success(status: u16) -> bool {
    200 <= status < 300
}

/// Map a non-success HTTP status and its body text to the error surfaced to
/// the caller.
pub fn error_for_status(status: u16, body: String) -> (e: TurboDocxError)
    ensures
        e.deep_view() == status_error(status, body@),
{
    if status == 401 {
        TurboDocxError::Authentication(body)
    } else if status == 400 {
        TurboDocxError::Validation(body)
    } else if status == 404 {
        TurboDocxError::NotFound(body)
    } else if status == 429 {
        TurboDocxError::RateLimit(body)
    } else {
        TurboDocxError::Api { status, message: body }
    }
}

/// Accept a success status, or map the status and body text to an error.
pub fn check_status(status: u16, body: String) -> (r: Result<(), TurboDocxError>)
    ensures
        r is Ok <==> is_success(status),
        r matches Err(e) ==> e.deep_view() == status_error(status, body@),
{
    if 200 <= status && status < 300 {
        Ok(())
    } else {
        Err(error_for_status(status, body))
    }
}

impl TurboDocxError {
    /// Human-readable description, in the shape `<kind>: <detail>`.
    pub fn describe(&self) -> (r: String)
        ensures
            r@ == self.spec_describe(),
    {
        match self {
            TurboDocxError::Authentication(m) => {
                let mut out = "Authentication error: ".to_owned();
                out.append(m.as_str());
                out
            },
            TurboDocxError::Validation(m) => {
                let mut out = "Validation error: ".to_owned();
                out.append(m.as_str());
                out
            },
            TurboDocxError::NotFound(m) => {
                let mut out = "Not found: ".to_owned();
                out.append(m.as_str());
                out
            },
            TurboDocxError::RateLimit(m) => {
                let mut out = "Rate limit exceeded: ".to_owned();
                out.append(m.as_str());
                out
            },
            TurboDocxError::Network(m) => {
                let mut out = "Network error: ".to_owned();
                out.append(m.as_str());
                out
            },
            TurboDocxError::Api { status, message } => {
                let mut out = "API error (status ".to_owned();
                write_digits(&mut out, *status as u64);
                out.append("): ");
                out.append(message.as_str());
                out
            },
            TurboDocxError::Serialization(m) => {
                let mut out = "Serialization error: ".to_owned();
                out.append(m.as_str());
                out
            },
            TurboDocxError::Request(m) => {
                let mut out = "HTTP request error: ".to_owned();
                out.append(m.as_str());
                out
            },
            TurboDocxError::Io(m) => {
                let mut out = "IO error: ".to_owned();
                out.append(m.as_str());
                out
            },
            TurboDocxError::Other(m) => m.as_str().to_owned(),
        }
    }

    pub open spec fn spec_describe(&self) -> Seq<char> {
        match self {
            TurboDocxError::Authentication(m) => "Authentication error: "@ + m@,
            TurboDocxError::Validation(m) => "Validation error: "@ + m@,
            TurboDocxError::NotFound(m) => "Not found: "@ + m@,
            TurboDocxError::RateLimit(m) => "Rate limit exceeded: "@ + m@,
            TurboDocxError::Network(m) => "Network error: "@ + m@,
            TurboDocxError::Api { status, message } => "API error (status "@ + digits_of(
                *status as nat,
            ) + "): "@ + message@,
            TurboDocxError::Serialization(m) => "Serialization error: "@ + m@,
            TurboDocxError::Request(m) => "HTTP request error: "@ + m@,
            TurboDocxError::Io(m) => "IO error: "@ + m@,
            TurboDocxError::Other(m) => m@,
        }
    }
}

} // verus!
