//! What happens inside one epoch: the upgrade request, the sign-in, and the
//! decisions of the reader and the writer.

use crate::client::ws::connection::{Event, EventView, SIGN_IN_TOPIC};
use crate::client::ws::message::{fresh_id, WsMessage, WsMessageView};
use crate::client::ws::sender::{is_send_failure, MessageSender};
use crate::error::WsError;
use crate::json::{json_object, json_object_of, json_text, json_text_of, members_view};
use crate::text::fields_view;
use vstd::prelude::*;

verus! {

/// The sub-protocol asked for in the upgrade request.
pub const SUBPROTOCOL: &'static str = "wfm";

/// The user agent named in the upgrade request.
pub const USER_AGENT: &'static str = "wf-market-rs";

/// The headers of the upgrade request, in order: the sub-protocol, the
/// credential as a cookie, and the user agent.
pub open spec fn upgrade_header_list(token: Seq<char>) -> Seq<(Seq<char>, Seq<char>)> {
    seq![
        ("Sec-WebSocket-Protocol"@, SUBPROTOCOL@),
        ("Cookie"@, "JWT="@ + token),
        ("User-Agent"@, USER_AGENT@),
    ]
}

/// Builds the headers of the upgrade request.
pub fn upgrade_headers(token: &str) -> (headers: Vec<(String, String)>)
    ensures
        fields_view(headers@) == upgrade_header_list(token@),
{
    let mut cookie = "JWT=".to_owned();
    cookie.append(token);
    let mut headers: Vec<(String, String)> = Vec::new();
    headers.push(("Sec-WebSocket-Protocol".to_owned(), SUBPROTOCOL.to_owned()));
    headers.push(("Cookie".to_owned(), cookie));
    headers.push(("User-Agent".to_owned(), USER_AGENT.to_owned()));
    assert(fields_view(headers@) =~= upgrade_header_list(token@));
    headers
}

/// The sign-in request: the credential and the device, under the identifier `id`.
pub open spec fn sign_in_request(token: Seq<char>, device_id: Seq<char>, id: Seq<char>) -> WsMessageView {
    WsMessageView {
        route: SIGN_IN_TOPIC@,
        payload: Some(
            json_object_of(
                seq![("token"@, json_text_of(token)), ("deviceId"@, json_text_of(device_id))],
            ),
        ),
        id: Some(id),
        ref_id: None,
    }
}

/// Builds the sign-in request.
pub fn sign_in_message(token: &str, device_id: &str, id: String) -> (message: WsMessage)
    ensures
        message@ == sign_in_request(token@, device_id@, id@),
{
    let mut members: Vec<(String, serde_json::Value)> = Vec::new();
    members.push(("token".to_owned(), json_text(token)));
    members.push(("deviceId".to_owned(), json_text(device_id)));
    assert(members_view(members@) =~= seq![
        ("token"@, json_text_of(token@)),
        ("deviceId"@, json_text_of(device_id@)),
    ]);
    WsMessage::request(SIGN_IN_TOPIC, Some(json_object(members)), id)
}

/// Enqueues the sign-in request under a fresh identifier and returns the identifier.
pub fn request_sign_in(sender: &MessageSender, token: &str, device_id: &str) -> (result: Result<
    String,
    WsError,
>)
    ensures
        match result {
            Ok(id) => id@.len() == 36,
            Err(e) => is_send_failure(e),
        },
{
    let id = fresh_id();
    let message = sign_in_message(token, device_id, id.clone());
    match sender.send_message(message) {
        Ok(()) => Ok(id),
        Err(e) => Err(e),
    }
}

/// The event that reports how the sign-in request fared.
pub fn sign_in_event(result: &Result<String, WsError>) -> (event: Event)
    ensures
        event@ == if result is Ok {
            EventView::SignInQueued
        } else {
            EventView::SignInNotQueued
        },
{
    match result {
        Ok(_) => Event::SignInQueued,
        Err(_) => Event::SignInNotQueued,
    }
}

/// What the reader got from the socket.
#[derive(Debug, PartialEq, Eq)]
pub enum Inbound {
    /// A text frame.
    Text(String),
    /// A close frame.
    Close,
    /// Any other frame.
    Other,
    /// The stream has ended.
    Ended,
    /// Reading failed, for the given cause.
    Failed(String),
}

/// What the writer got from sending one message.
#[derive(Debug, PartialEq, Eq)]
pub enum Outbound {
    /// The message is on the socket.
    Sent,
    /// The message could not be written as text and was skipped.
    Skipped,
    /// Writing failed, for the given cause.
    Failed(String),
}

/// What a pump does next.
#[derive(Debug, PartialEq, Eq)]
pub enum PumpStep {
    /// Decode this text and dispatch the message, then go on.
    Dispatch(String),
    /// Go on.
    Continue,
    /// Stop and report this event.
    Stop(Event),
}

/// The mathematical content of a `PumpStep`.
pub enum PumpStepView {
    Dispatch(Seq<char>),
    Continue,
    Stop(EventView),
}

impl View for PumpStep {
    type V = PumpStepView;

    open spec fn view(&self) -> PumpStepView {
        match *self {
            PumpStep::Dispatch(text) => PumpStepView::Dispatch(text@),
            PumpStep::Continue => PumpStepView::Continue,
            PumpStep::Stop(event) => PumpStepView::Stop(event@),
        }
    }
}

/// The reader's decision: text is dispatched, other frames are passed over, a
/// close or the end of the stream ends the epoch cleanly, a failure ends it
/// with its cause.
pub fn read_step(inbound: Inbound) -> (step: PumpStep)
    ensures
        step@ == match inbound {
            Inbound::Text(text) => PumpStepView::Dispatch(text@),
            Inbound::Close => PumpStepView::Stop(EventView::RemoteClosed),
            Inbound::Other => PumpStepView::Continue,
            Inbound::Ended => PumpStepView::Stop(EventView::RemoteClosed),
            Inbound::Failed(cause) => PumpStepView::Stop(EventView::ReadFailed(cause@)),
        },
{
    match inbound {
        Inbound::Text(text) => PumpStep::Dispatch(text),
        Inbound::Close => PumpStep::Stop(Event::RemoteClosed),
        Inbound::Other => PumpStep::Continue,
        Inbound::Ended => PumpStep::Stop(Event::RemoteClosed),
        Inbound::Failed(cause) => PumpStep::Stop(Event::ReadFailed(cause)),
    }
}

/// The writer's decision: it goes on after a message that was sent or skipped,
/// and stops with the cause after a failure.
pub fn write_step(outbound: Outbound) -> (step: PumpStep)
    ensures
        step@ == match outbound {
            Outbound::Sent => PumpStepView::Continue,
            Outbound::Skipped => PumpStepView::Continue,
            Outbound::Failed(cause) => PumpStepView::Stop(EventView::WriteFailed(cause@)),
        },
{
    match outbound {
        Outbound::Sent => PumpStep::Continue,
        Outbound::Skipped => PumpStep::Continue,
        Outbound::Failed(cause) => PumpStep::Stop(Event::WriteFailed(cause)),
    }
}

} // verus!
