//! The ways in which building or sending a message can fail.

use vstd::prelude::*;

verus! {

/// `std::io::Error`, carried as it came.
#[verifier::external_type_specification]
#[verifier::external_body]
pub struct ExIoError(std::io::Error);

/// `serde_json::Error`, carried as it came.
#[verifier::external_type_specification]
#[verifier::external_body]
pub struct ExJsonError(serde_json::Error);

/// `reqwest::Error`, carried as it came.
#[verifier::external_type_specification]
#[verifier::external_body]
pub struct ExTransportError(reqwest::Error);

/// `reqwest::header::InvalidHeaderValue`, carried as it came.
#[verifier::external_type_specification]
#[verifier::external_body]
pub struct ExInvalidHeaderValue(reqwest::header::InvalidHeaderValue);

/// The status code and the body of a response that was not a success.
#[derive(Debug)]
pub struct RequestNotSuccessful {
    /// Status code returned by the HTTP call.
    pub status: u16,
    /// Body returned by the HTTP call.
    pub body: String,
}

impl RequestNotSuccessful {
    /// Create a new unsuccessful request error.
    pub fn new(status: u16, body: String) -> (r: Self)
        ensures
            r.status == status,
            r.body == body,
    {
        RequestNotSuccessful { status, body }
    }
}

/// Represents any of the ways that using this library can fail.
#[derive(Debug)]
pub enum SendgridError {
    /// Local file access failed, for example while reading an attachment.
    Io(std::io::Error),
    /// Structured data could not be turned into JSON, or back.
    JSONDecode(serde_json::Error),
    /// The network client failed during the exchange.
    ReqwestError(reqwest::Error),
    /// The credential cannot stand in an HTTP header.
    InvalidHeader(reqwest::header::InvalidHeaderValue),
    /// The path of an attachment is not valid text.
    InvalidFilename,
    /// Dynamic template data was not a JSON object.
    InvalidTemplateValue,
    /// More unsubscribe groups to display than the provider accepts.
    TooManyItems,
    /// The provider answered with a status outside the success range.
    RequestNotSuccessful(RequestNotSuccessful),
}

impl From<std::io::Error> for SendgridError {
    fn from(error: std::io::Error) -> (e: Self) {
        SendgridError::Io(error)
    }
}

impl vstd::std_specs::convert::FromSpecImpl<std::io::Error> for SendgridError {
    open spec fn obeys_from_spec() -> bool {
        true
    }

    open spec fn from_spec(error: std::io::Error) -> Self {
        SendgridError::Io(error)
    }
}

impl From<serde_json::Error> for SendgridError {
    fn from(error: serde_json::Error) -> (e: Self) {
        SendgridError::JSONDecode(error)
    }
}

impl vstd::std_specs::convert::FromSpecImpl<serde_json::Error> for SendgridError {
    open spec fn obeys_from_spec() -> bool {
        true
    }

    open spec fn from_spec(error: serde_json::Error) -> Self {
        SendgridError::JSONDecode(error)
    }
}

impl From<reqwest::Error> for SendgridError {
    fn from(error: reqwest::Error) -> (e: Self) {
        SendgridError::ReqwestError(error)
    }
}

impl vstd::std_specs::convert::FromSpecImpl<reqwest::Error> for SendgridError {
    open spec fn obeys_from_spec() -> bool {
        true
    }

    open spec fn from_spec(error: reqwest::Error) -> Self {
        SendgridError::ReqwestError(error)
    }
}

impl From<reqwest::header::InvalidHeaderValue> for SendgridError {
    fn from(error: reqwest::header::InvalidHeaderValue) -> (e: Self) {
        SendgridError::InvalidHeader(error)
    }
}

impl vstd::std_specs::convert::FromSpecImpl<reqwest::header::InvalidHeaderValue> for SendgridError {
    open spec fn obeys_from_spec() -> bool {
        true
    }

    open spec fn from_spec(error: reqwest::header::InvalidHeaderValue) -> Self {
        SendgridError::InvalidHeader(error)
    }
}

impl From<RequestNotSuccessful> for SendgridError {
    fn from(error: RequestNotSuccessful) -> (e: Self) {
        SendgridError::RequestNotSuccessful(error)
    }
}

impl vstd::std_specs::convert::FromSpecImpl<RequestNotSuccessful> for SendgridError {
    open spec fn obeys_from_spec() -> bool {
        true
    }

    open spec fn from_spec(error: RequestNotSuccessful) -> Self {
        SendgridError::RequestNotSuccessful(error)
    }
}

/// A type alias used throughout the library for concise error notation.
pub type SendgridResult<T> = Result<T, SendgridError>;

} // verus!
