//! The request dispatcher's rules.
//!
//! A call waits for a slot of the throttle, sends one request, reads the whole
//! body and decodes it, in that order and without retrying. The caller does
//! the waiting and the transfer; what to send and what each outcome means is
//! decided here.

use crate::error::{ApiError, ErrorResponse};
use crate::text::fields_view;
use vstd::prelude::*;

verus! {

/// The base of every path of the second version of the interface.
pub const BASE_URL: &'static str = "https://api.warframe.market/v2";

/// The base of every path of the first version of the interface.
pub const V1_API: &'static str = "https://api.warframe.market/v1";

/// The number of requests that the throttle lets through per second.
pub const REQUESTS_PER_SECOND: u32 = 3;

/// What is said when the body of an answer could not be read.
pub const BODY_UNREAD: &'static str = "Error";

/// What a decoding failure's detail is prefixed with.
pub const PARSING_PREFIX: &'static str = "Error Parsing: ";

/// The verb of a request.
#[derive(Debug, Clone, Copy, PartialEq, Eq, Structural)]
pub enum Method {
    Get,
    Post,
    Patch,
    Put,
    Delete,
}

/// The name of a verb, as it stands in a request line.
pub open spec fn method_name(method: Method) -> Seq<char> {
    match method {
        Method::Get => "GET"@,
        Method::Post => "POST"@,
        Method::Patch => "PATCH"@,
        Method::Put => "PUT"@,
        Method::Delete => "DELETE"@,
    }
}

/// The name of a verb, as it stands in a request line.
pub fn transform_method(method: Method) -> (name: &'static str)
    ensures
        name@ == method_name(method),
{
    match method {
        Method::Get => "GET",
        Method::Post => "POST",
        Method::Patch => "PATCH",
        Method::Put => "PUT",
        Method::Delete => "DELETE",
    }
}

/// A request: the verb and the path below `BASE_URL`.
#[derive(Debug, PartialEq, Eq)]
pub struct Request {
    pub method: Method,
    pub path: String,
}

/// What became of a request on the wire.
#[derive(Debug, PartialEq, Eq)]
pub enum Exchange {
    /// The request could not be sent, or no answer came.
    SendFailed,
    /// An answer came, but its body could not be read.
    BodyUnread,
    /// An answer came, with this body.
    Body(String),
}

/// The address of a path: `BASE_URL` followed by the path.
pub fn endpoint(path: &str) -> (url: String)
    ensures
        url@ == BASE_URL@ + path@,
{
    let mut url = BASE_URL.to_owned();
    url.append(path);
    url
}

/// The body of an answer, or the error that stands for what went wrong on the
/// wire: `RequestError` when nothing came back, `Unknown` when the body could
/// not be read.
pub fn body_of(exchange: Exchange) -> (result: Result<String, ApiError>)
    ensures
        match exchange {
            Exchange::SendFailed => result matches Err(ApiError::RequestError),
            Exchange::BodyUnread => result matches Err(ApiError::Unknown(text)) && text@
                == BODY_UNREAD@,
            Exchange::Body(body) => result matches Ok(text) && text@ == body@,
        },
{
    match exchange {
        Exchange::SendFailed => Err(ApiError::RequestError),
        Exchange::BodyUnread => Err(ApiError::Unknown(BODY_UNREAD.to_owned())),
        Exchange::Body(body) => Ok(body),
    }
}

/// The value that a body decoded to, or `ParsingError` with the decoder's
/// words behind `Error Parsing: `.
pub fn decoded<T>(outcome: Result<T, String>) -> (result: Result<T, ApiError>)
    ensures
        match outcome {
            Ok(value) => result == Ok::<T, ApiError>(value),
            Err(detail) => result matches Err(ApiError::ParsingError(text)) && text@
                == PARSING_PREFIX@ + detail@,
        },
{
    match outcome {
        Ok(value) => Ok(value),
        Err(detail) => {
            let mut text = PARSING_PREFIX.to_owned();
            text.append(detail.as_str());
            Err(ApiError::ParsingError(text))
        },
    }
}

/// The value that a body decoded to, or what the body stands for where it did
/// not: the service's own report of a failure, passed through as `WFMError`,
/// where the body decoded to one, and `ParsingError` otherwise.
pub fn answer_of<T>(outcome: Result<T, String>, reported: Option<ErrorResponse>) -> (result: Result<
    T,
    ApiError,
>)
    ensures
        match (outcome, reported) {
            (Ok(value), _) => result == Ok::<T, ApiError>(value),
            (Err(_), Some(report)) => result == Err::<T, ApiError>(ApiError::WFMError(report)),
            (Err(detail), None) => result matches Err(ApiError::ParsingError(text)) && text@
                == PARSING_PREFIX@ + detail@,
        },
{
    match outcome {
        Ok(value) => Ok(value),
        Err(detail) => match reported {
            Some(report) => Err(ApiError::WFMError(report)),
            None => decoded(Err(detail)),
        },
    }
}

/// The headers that every request carries, in order: the authorization, where
/// there is one, then the language and the platform.
pub open spec fn default_header_list(authorization: Option<Seq<char>>) -> Seq<
    (Seq<char>, Seq<char>),
> {
    let fixed = seq![("language"@, "en"@), ("platform"@, "pc"@)];
    match authorization {
        Some(value) => seq![("authorization"@, value)] + fixed,
        None => fixed,
    }
}

/// Builds the headers that every request carries.
pub fn build_http(auth: Option<String>) -> (headers: Vec<(String, String)>)
    ensures
        fields_view(headers@) == default_header_list(
            match auth {
                Some(value) => Some(value@),
                None => None,
            },
        ),
{
    let mut headers: Vec<(String, String)> = Vec::new();
    match auth {
        Some(value) => {
            headers.push(("authorization".to_owned(), value));
        },
        None => {},
    }
    headers.push(("language".to_owned(), "en".to_owned()));
    headers.push(("platform".to_owned(), "pc".to_owned()));
    assert(fields_view(headers@) =~= default_header_list(
        match auth {
            Some(value) => Some(value@),
            None => None,
        },
    ));
    headers
}

} // verus!
