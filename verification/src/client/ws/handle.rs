//! The handle that callers send through.
//!
//! The handle shares one slot with the supervisor of the connection: the sender
//! of the current epoch, if an epoch is open. Each send reads the slot once and
//! either enqueues on that sender or fails at once; nothing is held back for a
//! later epoch.

use crate::client::ws::message::WsMessage;
use crate::client::ws::route::{parse_topic, Route, PARAMETER_DELIMITER, PROTOCOL_DELIMITER};
use crate::client::ws::router::{
    dispatched, is_path_reserved, is_reserved, Router, INTERNAL_PROTOCOL,
};
use crate::client::ws::sender::{
    is_send_failure, service_topic, topic_for_path, MessageSender, WS_PROTOCOL,
};
use crate::error::WsError;
use crate::text::{first_index, lemma_first_index, lemma_first_index_unique, same_text};
use std::sync::{Arc, Mutex};
use vstd::prelude::*;

verus! {

/// `std::sync::Mutex`, opaque to the verifier.
#[verifier::external_type_specification]
#[verifier::external_body]
#[verifier::reject_recursive_types(T)]
pub struct ExMutex<T: ?Sized>(Mutex<T>);

/// What a send on a topic of the transport's own is refused with.
pub const INTERNAL_ROUTE_REFUSED: &'static str = "Can't send on internal routes";

/// The protocol that callers may not send on, written without the `@`.
pub const INTERNAL_PROTOCOL_BARE: &'static str = "internal";

/// The transport handle.
pub struct WsClient {
    sender: Arc<Mutex<Option<MessageSender>>>,
}

/// Locks the slot with `Mutex::lock` and copies out what it holds. A lock that
/// a panicking holder has poisoned reads as empty. What the slot holds depends
/// on the supervisor, so nothing is promised of the result.
#[verifier::external_body]
fn read_slot(slot: &Mutex<Option<MessageSender>>) -> (current: Option<MessageSender>) {
    slot.lock().ok().and_then(|guard| guard.clone())
}

/// A topic that belongs to the transport: it parses, and either its protocol
/// is the internal one or its path is reserved.
pub open spec fn manager_owned(topic: Seq<char>) -> bool {
    parse_topic(topic) matches Some(route) && (route.protocol == INTERNAL_PROTOCOL@
        || route.protocol == INTERNAL_PROTOCOL_BARE@ || is_reserved(route.path))
}

/// The topic of a path under the service's protocol belongs to the transport
/// exactly when the path, up to its parameter, is reserved.
pub proof fn lemma_owned_service_topic(path: Seq<char>)
    ensures
        manager_owned(service_topic(path)) <==> is_reserved(
            path.take(first_index(path, PARAMETER_DELIMITER)),
        ),
{
    reveal_strlit("@wfm");
    reveal_strlit("@internal");
    reveal_strlit("internal");
    let topic = service_topic(path);
    let bar = WS_PROTOCOL@.len() as int;
    assert(topic[bar] == PROTOCOL_DELIMITER);
    assert forall|j: int| 0 <= j < bar implies topic[j] != PROTOCOL_DELIMITER by {
        assert(topic[j] == WS_PROTOCOL@[j]);
    }
    lemma_first_index_unique(topic, PROTOCOL_DELIMITER, bar);
    lemma_first_index(topic, PROTOCOL_DELIMITER);
    assert(topic.skip(bar + 1) =~= path);
    assert(topic.take(bar) =~= WS_PROTOCOL@);
    assert(WS_PROTOCOL@.len() != INTERNAL_PROTOCOL@.len());
    assert(WS_PROTOCOL@.len() != INTERNAL_PROTOCOL_BARE@.len());
}

/// Whether a parsed route belongs to the transport.
pub fn is_manager_owned(route: &Route) -> (owned: bool)
    ensures
        owned == (route@.protocol == INTERNAL_PROTOCOL@ || route@.protocol
            == INTERNAL_PROTOCOL_BARE@ || is_reserved(route@.path)),
{
    same_text(route.protocol.as_str(), INTERNAL_PROTOCOL) || same_text(
        route.protocol.as_str(),
        INTERNAL_PROTOCOL_BARE,
    ) || is_path_reserved(route.base_path())
}

/// The refusal of a send on a topic of the transport's own.
pub open spec fn is_refusal(e: WsError) -> bool {
    e matches WsError::ReservedPath(text) && text@ == INTERNAL_ROUTE_REFUSED@
}

fn refusal() -> (e: WsError)
    ensures
        is_refusal(e),
{
    WsError::ReservedPath(INTERNAL_ROUTE_REFUSED.to_owned())
}

/// Sends `message` on the sender of the current epoch, if there is one.
///
/// A topic of the transport's own is refused with `ReservedPath`. Without an
/// open epoch the send fails with `ConnectionError`. Otherwise the message is
/// enqueued, which fails only when the queue is closed.
pub fn send_on(current: Option<MessageSender>, message: WsMessage) -> (result: Result<(), WsError>)
    ensures
        match result {
            Ok(()) => !manager_owned(message@.route) && current is Some,
            Err(e) => if manager_owned(message@.route) {
                is_refusal(e)
            } else if current is None {
                e is ConnectionError
            } else {
                is_send_failure(e)
            },
        },
{
    match Route::parse(message.route.as_str()) {
        Ok(route) => {
            if is_manager_owned(&route) {
                return Err(refusal());
            }
        },
        Err(_) => {},
    }
    match current {
        Some(sender) => sender.send_message(message),
        None => Err(WsError::ConnectionError),
    }
}

/// Sends an answer to the message `ref_id` on the sender of the current epoch.
///
/// Refused with `ReservedPath` on a topic of the transport's own; fails with
/// `NotConnected` without an open epoch.
pub fn respond_on(
    current: Option<MessageSender>,
    route: &str,
    payload: serde_json::Value,
    ref_id: &str,
) -> (result: Result<(), WsError>)
    ensures
        match result {
            Ok(()) => !manager_owned(route@) && current is Some,
            Err(e) => if manager_owned(route@) {
                is_refusal(e)
            } else if current is None {
                e is NotConnected
            } else {
                is_send_failure(e)
            },
        },
{
    match Route::parse(route) {
        Ok(parsed) => {
            if is_manager_owned(&parsed) {
                return Err(refusal());
            }
        },
        Err(_) => {},
    }
    match current {
        Some(sender) => sender.send_response(route, payload, ref_id),
        None => Err(WsError::NotConnected),
    }
}

/// Sends a request on the sender of the current epoch and returns the
/// identifier under which the answer will come.
///
/// A topic that does not parse fails with `InvalidPath`, carrying the topic;
/// a topic of the transport's own is refused with `ReservedPath`; without an
/// open epoch the send fails with `NotConnected`.
pub fn request_on(current: Option<MessageSender>, route: &str, payload: serde_json::Value) -> (result:
    Result<String, WsError>)
    ensures
        match result {
            Ok(id) => parse_topic(route@) is Some && !manager_owned(route@) && current is Some
                && id@.len() == 36,
            Err(e) => if parse_topic(route@) is None {
                e matches WsError::InvalidPath(topic) && topic@ == route@
            } else if manager_owned(route@) {
                is_refusal(e)
            } else if current is None {
                e is NotConnected
            } else {
                is_send_failure(e)
            },
        },
{
    let parsed = match Route::parse(route) {
        Ok(parsed) => parsed,
        Err(_) => {
            return Err(WsError::InvalidPath(route.to_owned()));
        },
    };
    if is_manager_owned(&parsed) {
        return Err(refusal());
    }
    match current {
        Some(sender) => sender.send_request(route, payload),
        None => Err(WsError::NotConnected),
    }
}

/// Sends a message with `payload` on the service topic of `path`, which is
/// `@wfm|path`.
///
/// A path whose topic belongs to the transport is refused with
/// `ReservedPath`. Without an open epoch the send fails with `NotConnected`.
/// Otherwise the message is enqueued, which fails only when the queue is
/// closed.
pub fn send_to_path_on(current: Option<MessageSender>, path: &str, payload: Option<
    serde_json::Value,
>) -> (result: Result<(), WsError>)
    ensures
        match result {
            Ok(()) => !manager_owned(service_topic(path@)) && current is Some,
            Err(e) => if manager_owned(service_topic(path@)) {
                is_refusal(e)
            } else if current is None {
                e is NotConnected
            } else {
                is_send_failure(e)
            },
        },
{
    let topic = topic_for_path(path);
    match Route::parse(topic.as_str()) {
        Ok(route) => {
            if is_manager_owned(&route) {
                return Err(refusal());
            }
        },
        Err(_) => {},
    }
    match current {
        Some(sender) => match payload {
            Some(payload) => sender.send_message_to_path(path, payload),
            None => sender.send_message_to_path_no_payload(path),
        },
        None => Err(WsError::NotConnected),
    }
}

impl WsClient {
    /// The slot that the handle reads.
    pub closed spec fn slot(&self) -> Arc<Mutex<Option<MessageSender>>> {
        self.sender
    }

    /// A handle on the slot that the supervisor of the connection publishes to.
    pub fn new(sender: Arc<Mutex<Option<MessageSender>>>) -> (client: WsClient)
        ensures
            client.slot() == sender,
    {
        WsClient { sender }
    }

    /// Tells the handlers that the connection has ended: dispatches `message`.
    pub fn send_disconnect_message<
        H: Fn(&WsMessage, &Route, &MessageSender) -> Result<(), WsError>,
    >(router: &Router<H>, message: &WsMessage, sender: &MessageSender) -> (result: Result<
        (),
        WsError,
    >)
        ensures
            dispatched(router@, message, sender, result),
    {
        router.route_message(message, sender)
    }

    /// Tells the handlers that the connection has opened: dispatches the
    /// message of `WsMessage::connect`.
    pub fn send_connect_message<H: Fn(&WsMessage, &Route, &MessageSender) -> Result<(), WsError>>(
        router: &Router<H>,
        sender: &MessageSender,
    ) -> (result: Result<(), WsError>)
        ensures
            exists|message: WsMessage|
                message@ == crate::client::ws::message::connected_message() && dispatched(
                    router@,
                    &message,
                    sender,
                    result,
                ),
    {
        let message = WsMessage::connect();
        router.route_message(&message, sender)
    }

    /// Takes one inbound text frame that the caller has tried to decode.
    ///
    /// Text that did not decode to a message fails with
    /// `InvalidMessageReceived`, carrying the text; a decoded message is
    /// dispatched.
    pub fn handle_text_message<H: Fn(&WsMessage, &Route, &MessageSender) -> Result<(), WsError>>(
        router: &Router<H>,
        text: &str,
        decoded: Option<WsMessage>,
        sender: &MessageSender,
    ) -> (result: Result<(), WsError>)
        ensures
            match decoded {
                Some(message) => dispatched(router@, &message, sender, result),
                None => result matches Err(WsError::InvalidMessageReceived(received))
                    && received@ == text@,
            },
    {
        match decoded {
            Some(message) => router.route_message(&message, sender),
            None => Err(WsError::InvalidMessageReceived(text.to_owned())),
        }
    }

    /// Sends `message`: see `send_on`. Whether an epoch is open is read from
    /// the slot at the moment of the call.
    pub fn send_message(&self, message: WsMessage) -> (result: Result<(), WsError>)
        ensures
            match result {
                Ok(()) => !manager_owned(message@.route),
                Err(e) => if manager_owned(message@.route) {
                    is_refusal(e)
                } else {
                    e is ConnectionError || is_send_failure(e)
                },
            },
    {
        send_on(self.get_sender(), message)
    }

    /// Sends a message with `payload` on the service topic of `path`: see
    /// `send_to_path_on`. A path whose topic belongs to the transport is
    /// refused whatever the slot holds.
    pub fn send_message_to_path(&self, path: &str, payload: serde_json::Value) -> (result: Result<
        (),
        WsError,
    >)
        ensures
            match result {
                Ok(()) => !manager_owned(service_topic(path@)),
                Err(e) => if manager_owned(service_topic(path@)) {
                    is_refusal(e)
                } else {
                    e is NotConnected || is_send_failure(e)
                },
            },
    {
        send_to_path_on(self.get_sender(), path, Some(payload))
    }

    /// Sends a message without payload on the service topic of `path`: see
    /// `send_to_path_on`. A path whose topic belongs to the transport is
    /// refused whatever the slot holds.
    pub fn send_message_to_path_no_payload(&self, path: &str) -> (result: Result<(), WsError>)
        ensures
            match result {
                Ok(()) => !manager_owned(service_topic(path@)),
                Err(e) => if manager_owned(service_topic(path@)) {
                    is_refusal(e)
                } else {
                    e is NotConnected || is_send_failure(e)
                },
            },
    {
        send_to_path_on(self.get_sender(), path, None)
    }

    /// Sends an answer: see `respond_on`.
    pub fn send_response(&self, route: &str, payload: serde_json::Value, ref_id: &str) -> (result:
        Result<(), WsError>)
        ensures
            match result {
                Ok(()) => !manager_owned(route@),
                Err(e) => if manager_owned(route@) {
                    is_refusal(e)
                } else {
                    e is NotConnected || is_send_failure(e)
                },
            },
    {
        respond_on(self.get_sender(), route, payload, ref_id)
    }

    /// Sends a request: see `request_on`.
    pub fn send_request(&self, route: &str, payload: serde_json::Value) -> (result: Result<
        String,
        WsError,
    >)
        ensures
            match result {
                Ok(id) => parse_topic(route@) is Some && !manager_owned(route@) && id@.len() == 36,
                Err(e) => if parse_topic(route@) is None {
                    e matches WsError::InvalidPath(topic) && topic@ == route@
                } else if manager_owned(route@) {
                    is_refusal(e)
                } else {
                    e is NotConnected || is_send_failure(e)
                },
            },
    {
        request_on(self.get_sender(), route, payload)
    }

    /// The sender of the current epoch, if an epoch is open.
    pub fn get_sender(&self) -> (current: Option<MessageSender>) {
        read_slot(&self.sender)
    }
}

} // verus!
