//! Error kinds of the request layer, of the login exchange and of the
//! message transport.

use std::collections::HashMap;
use vstd::prelude::*;

verus! {

/// Why a login did not produce an authenticated session.
#[derive(Debug, PartialEq, Eq)]
pub enum AuthError {
    NoUser,
    ParsingError,
    Unknown(String),
}

/// Why a request did not produce a value.
#[derive(Debug, PartialEq, Eq)]
pub enum ApiError {
    ParsingError(String),
    RequestError,
    Unauthorized,
    NotFound(String),
    Forbidden,
    WFMError(ErrorResponse),
    Unknown(String),
}

/// The envelope in which the service reports a failure of its own.
#[derive(Debug, PartialEq, Eq)]
pub struct ErrorResponse {
    pub api_version: String,
    pub data: Option<serde_json::Value>,
    pub error: ApiErrorBody,
}

/// The body of a service-side failure: general messages and per-field messages.
#[derive(Debug, PartialEq, Eq)]
pub struct ApiErrorBody {
    pub request: Option<Vec<String>>,
    pub inputs: Option<HashMap<String, String>>,
}

/// Why a transport operation failed.
#[derive(Debug, PartialEq, Eq)]
pub enum WsError {
    ReservedPath(String),
    InvalidPath(String),
    AlreadyRegistered(String),
    InvalidMessageReceived(String),
    ConnectionError,
    InvalidMessage,
    SendError(String),
    NotConnected,
}

} // verus!
