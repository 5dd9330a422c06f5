//! The error type shared by every operation.

use vstd::prelude::*;

verus! {

/// `hyper::Error`, the failure a transport reports. Carried through unread.
#[verifier::external_type_specification]
#[verifier::external_body]
pub struct ExHyperError(hyper::Error);

/// `serde_json::Error`, the failure a JSON codec reports. Carried through
/// unread.
#[verifier::external_type_specification]
#[verifier::external_body]
pub struct ExSerdeJsonError(serde_json::Error);

/// Why an operation failed.
///
/// The two causes are kept apart so that a caller can branch on them: the
/// request never produced a response, or the response did not parse into the
/// expected shape.
#[derive(Debug)]
pub enum ApiError {
    /// Transport error: connection, timeout or protocol failure before or
    /// while the response was received.
    Hyper(hyper::Error),
    /// Decode error: the body arrived but is not the expected JSON.
    Serde(serde_json::Error),
}

impl ApiError {
    /// True of a transport error.
    pub fn is_transport(&self) -> (b: bool)
        ensures
            b == (self is Hyper),
    {
        match self {
            ApiError::Hyper(_) => true,
            ApiError::Serde(_) => false,
        }
    }

    /// True of a decode error.
    pub fn is_decode(&self) -> (b: bool)
        ensures
            b == (self is Serde),
    {
        match self {
            ApiError::Hyper(_) => false,
            ApiError::Serde(_) => true,
        }
    }
}

impl From<hyper::Error> for ApiError {
    fn from(failure: hyper::Error) -> (error: ApiError) {
        ApiError::Hyper(failure)
    }
}

impl vstd::std_specs::convert::FromSpecImpl<hyper::Error> for ApiError {
    open spec fn obeys_from_spec() -> bool {
        true
    }

    open spec fn from_spec(failure: hyper::Error) -> ApiError {
        ApiError::Hyper(failure)
    }
}

impl From<serde_json::Error> for ApiError {
    fn from(failure: serde_json::Error) -> (error: ApiError) {
        ApiError::Serde(failure)
    }
}

impl vstd::std_specs::convert::FromSpecImpl<serde_json::Error> for ApiError {
    open spec fn obeys_from_spec() -> bool {
        true
    }

    open spec fn from_spec(failure: serde_json::Error) -> ApiError {
        ApiError::Serde(failure)
    }
}

} // verus!
