//! What becomes of a call once the transport has answered.
//!
//! A transport failure ends the call at once. A response to an operation
//! that expects no content ends it with success, whatever the body holds.
//! A response to an operation that expects a record hands its bytes to the
//! JSON codec, and what the codec says ends the call.

use vstd::prelude::*;
use crate::error::ApiError;

verus! {

/// The shape of the response that an operation declares.
#[derive(Clone, Copy, Debug, PartialEq, Eq, Structural)]
pub enum ResponseShape {
    /// Nothing is read from the body.
    NoContent,
    /// The body is a JSON document.
    Json,
}

/// The next step of a call after the transport has answered.
#[derive(Debug)]
pub enum Resolution {
    /// The call has failed.
    Failed(ApiError),
    /// The call has succeeded and gives no value.
    Done,
    /// The call goes on: these bytes are to be decoded.
    Decode(Vec<u8>),
}

/// The step that follows a transport outcome, for a declared shape.
pub open spec fn resolution_of(
    shape: ResponseShape,
    outcome: Result<Vec<u8>, hyper::Error>,
) -> Resolution {
    match outcome {
        Err(failure) => Resolution::Failed(ApiError::Hyper(failure)),
        Ok(body) => match shape {
            ResponseShape::NoContent => Resolution::Done,
            ResponseShape::Json => Resolution::Decode(body),
        },
    }
}

/// The result of a call whose body went through the codec.
pub open spec fn decoded_of<T>(parsed: Result<T, serde_json::Error>) -> Result<T, ApiError> {
    match parsed {
        Ok(value) => Ok(value),
        Err(failure) => Err(ApiError::Serde(failure)),
    }
}

/// Classifies what the transport handed back: the received body, or the
/// failure that kept a response from arriving.
pub fn resolve(shape: ResponseShape, outcome: Result<Vec<u8>, hyper::Error>) -> (resolution:
    Resolution)
    ensures
        resolution == resolution_of(shape, outcome),
{
    match outcome {
        Err(failure) => Resolution::Failed(ApiError::from(failure)),
        Ok(body) => match shape {
            ResponseShape::NoContent => Resolution::Done,
            ResponseShape::Json => Resolution::Decode(body),
        },
    }
}

/// Classifies what the codec made of a body: the decoded value, or a decode
/// error that carries the parse failure.
pub fn decoded<T>(parsed: Result<T, serde_json::Error>) -> (result: Result<T, ApiError>)
    ensures
        result == decoded_of(parsed),
{
    match parsed {
        Ok(value) => Ok(value),
        Err(failure) => Err(ApiError::from(failure)),
    }
}

/// A transport failure surfaces as a transport error that carries it, for
/// every declared shape, and no body is handed on for decoding.
pub proof fn lemma_transport_failure_is_terminal(shape: ResponseShape, failure: hyper::Error)
    ensures
        resolution_of(shape, Err(failure)) == Resolution::Failed(ApiError::Hyper(failure)),
        !(resolution_of(shape, Err(failure)) is Decode),
{
}

/// A body that the codec rejects surfaces as a decode error that carries
/// the parse failure: never as a value.
pub proof fn lemma_rejected_body_is_decode_error<T>(failure: serde_json::Error)
    ensures
        decoded_of::<T>(Err(failure)) == Err::<T, ApiError>(ApiError::Serde(failure)),
        decoded_of::<T>(Err(failure)) is Err,
{
}

/// A response is only ever decoded when the transport succeeded and the
/// operation expects a record, and then the bytes are those received.
pub proof fn lemma_decode_only_received_json(
    shape: ResponseShape,
    outcome: Result<Vec<u8>, hyper::Error>,
)
    ensures
        resolution_of(shape, outcome) is Decode <==> (outcome is Ok && shape == ResponseShape::Json),
        resolution_of(shape, outcome) is Decode ==> resolution_of(shape, outcome)->Decode_0
            == outcome->Ok_0,
        resolution_of(shape, outcome) is Done <==> (outcome is Ok && shape
            == ResponseShape::NoContent),
{
}

} // verus!
