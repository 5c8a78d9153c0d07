//! Messages: a topic, an optional payload, an optional identifier and an
//! optional reference to the message that this one answers.

use crate::json::{json_text_member, text_member};
use vstd::prelude::*;

verus! {

/// The identifier carried by the messages that the transport makes for itself.
pub const INTERNAL_ID: &'static str = "INTERNAL";

/// The topic announced to handlers when a connection has opened.
pub const CONNECTED_TOPIC: &'static str = "@internal|internal/connected";

/// The topic announced to handlers when a connection has ended.
pub const DISCONNECTED_TOPIC: &'static str = "@internal|internal/disconnected";

/// One frame of the transport.
#[derive(Debug, Clone, PartialEq, Eq)]
pub struct WsMessage {
    pub route: String,
    pub payload: Option<serde_json::Value>,
    pub id: Option<String>,
    pub ref_id: Option<String>,
}

/// The mathematical content of a `WsMessage`.
pub struct WsMessageView {
    pub route: Seq<char>,
    pub payload: Option<serde_json::Value>,
    pub id: Option<Seq<char>>,
    pub ref_id: Option<Seq<char>>,
}

/// The text of an optional string.
pub open spec fn text_of(s: Option<String>) -> Option<Seq<char>> {
    match s {
        Some(s) => Some(s@),
        None => None,
    }
}

impl View for WsMessage {
    type V = WsMessageView;

    open spec fn view(&self) -> WsMessageView {
        WsMessageView {
            route: self.route@,
            payload: self.payload,
            id: text_of(self.id),
            ref_id: text_of(self.ref_id),
        }
    }
}

/// The announcement of an opened connection.
pub open spec fn connected_message() -> WsMessageView {
    WsMessageView {
        route: CONNECTED_TOPIC@,
        payload: Some(text_member("status"@, "connected"@)),
        id: Some(INTERNAL_ID@),
        ref_id: None,
    }
}

/// The announcement of an ended connection, with the reason it ended.
pub open spec fn disconnected_message(reason: Seq<char>) -> WsMessageView {
    WsMessageView {
        route: DISCONNECTED_TOPIC@,
        payload: Some(text_member("reason"@, reason)),
        id: Some(INTERNAL_ID@),
        ref_id: None,
    }
}

/// Calls `uuid::Uuid::new_v4()` and formats it with `Display`, which writes the
/// hyphenated form: always 36 characters. Which ones is left to chance.
#[verifier::external_body]
pub(crate) fn fresh_id() -> (id: String)
    ensures
        id@.len() == 36,
{
    uuid::Uuid::new_v4().to_string()
}

impl WsMessage {
    /// A message on `route` with a freshly drawn identifier and no reference.
    pub fn new(route: &str, payload: Option<serde_json::Value>) -> (message: WsMessage)
        ensures
            message@.route == route@,
            message@.payload == payload,
            message@.id matches Some(id) && id.len() == 36,
            message@.ref_id is None,
    {
        WsMessage::request(route, payload, fresh_id())
    }

    /// A message on `route` under the identifier `id`, answering nothing.
    pub fn request(route: &str, payload: Option<serde_json::Value>, id: String) -> (message:
        WsMessage)
        ensures
            message@ == (WsMessageView {
                route: route@,
                payload: payload,
                id: Some(id@),
                ref_id: None,
            }),
    {
        WsMessage { route: route.to_owned(), payload, id: Some(id), ref_id: None }
    }

    /// A message on `route` under the identifier `id`, answering the message `ref_id`.
    pub fn response(route: &str, payload: serde_json::Value, id: String, ref_id: &str) -> (message:
        WsMessage)
        ensures
            message@ == (WsMessageView {
                route: route@,
                payload: Some(payload),
                id: Some(id@),
                ref_id: Some(ref_id@),
            }),
    {
        WsMessage {
            route: route.to_owned(),
            payload: Some(payload),
            id: Some(id),
            ref_id: Some(ref_id.to_owned()),
        }
    }

    /// The message that tells handlers that a connection has opened.
    pub fn connect() -> (message: WsMessage)
        ensures
            message@ == connected_message(),
    {
        WsMessage {
            route: CONNECTED_TOPIC.to_owned(),
            payload: Some(json_text_member("status", "connected")),
            id: Some(INTERNAL_ID.to_owned()),
            ref_id: None,
        }
    }

    /// The message that tells handlers that the connection has ended, and why.
    pub fn disconnect(error: String) -> (message: WsMessage)
        ensures
            message@ == disconnected_message(error@),
    {
        WsMessage {
            route: DISCONNECTED_TOPIC.to_owned(),
            payload: Some(json_text_member("reason", error.as_str())),
            id: Some(INTERNAL_ID.to_owned()),
            ref_id: None,
        }
    }
}

} // verus!
