//! Requests to the API and the reading of its responses.

use vstd::prelude::*;

use crate::apis::exchange::TransportError;

pub mod configuration;
pub mod encoding;
pub mod exchange;
pub mod executor;
pub mod json;
pub mod logging_digitalocean_api;
pub mod rate_limit;

pub use self::encoding::urlencode;

verus! {

/// What an error status came with.
#[derive(Debug, Clone)]
pub struct ResponseContent<T> {
    pub status: u16,
    /// The body as it was received.
    pub content: String,
    /// The body as the endpoint's error payload, where it could be read as
    /// one.
    pub entity: Option<T>,
}

/// The payload that an endpoint sends with an error status.
pub trait ErrorEntity: Sized {
    /// The payload for a body whose shape the endpoint does not describe.
    fn from_document(document: serde_json::Value) -> Self;
}

/// Why a call failed.
#[derive(Debug)]
pub enum ApiError<T> {
    /// No response, or no complete response, arrived.
    Transport(TransportError),
    /// The body of a successful response is not the expected payload.
    Serde(serde_json::Error),
    /// The API answered with a status from 400 to 599.
    ResponseError(ResponseContent<T>),
}

impl<T> From<serde_json::Error> for ApiError<T> {
    fn from(failure: serde_json::Error) -> (error: ApiError<T>) {
        ApiError::Serde(failure)
    }
}

impl<T> vstd::std_specs::convert::FromSpecImpl<serde_json::Error> for ApiError<T> {
    open spec fn obeys_from_spec() -> bool {
        true
    }

    open spec fn from_spec(failure: serde_json::Error) -> ApiError<T> {
        ApiError::Serde(failure)
    }
}

impl<T> From<TransportError> for ApiError<T> {
    fn from(failure: TransportError) -> (error: ApiError<T>) {
        ApiError::Transport(failure)
    }
}

impl<T> vstd::std_specs::convert::FromSpecImpl<TransportError> for ApiError<T> {
    open spec fn obeys_from_spec() -> bool {
        true
    }

    open spec fn from_spec(failure: TransportError) -> ApiError<T> {
        ApiError::Transport(failure)
    }
}

} // verus!
