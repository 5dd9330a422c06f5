//! Request construction and response classification for the pet resource of
//! a Petstore REST service.
//!
//! The library turns each operation on pets into a plain [`request::Request`]
//! value (method, URI, headers, optional body) and classifies what a
//! transport and a JSON codec hand back into a uniform result. Sending the
//! request and decoding typed records are left to the caller.

pub mod configuration;
pub mod decimal;
pub mod encoding;
pub mod error;
pub mod pet_api;
pub mod request;
pub mod response;
