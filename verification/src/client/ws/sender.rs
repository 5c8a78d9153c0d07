//! The sending side of a connection's outbound queue.
//!
//! Enqueueing never blocks: the message is handed to an unbounded channel and a
//! writer elsewhere drains it onto the socket. The only failure is a queue whose
//! reader is gone.

use crate::client::ws::message::{fresh_id, WsMessage};
use crate::error::WsError;
use tokio::sync::mpsc::UnboundedSender;
use vstd::prelude::*;

verus! {

/// `tokio::sync::mpsc::UnboundedSender`, opaque to the verifier.
#[verifier::external_type_specification]
#[verifier::external_body]
#[verifier::reject_recursive_types(T)]
pub struct ExUnboundedSender<T>(UnboundedSender<T>);

/// `UnboundedSender`'s `Clone`, which makes another handle to the same queue.
/// Nothing is stated of the copy: the verifier sees no contents to compare.
pub assume_specification<T>[ <UnboundedSender<T> as Clone>::clone ](
    tx: &UnboundedSender<T>,
) -> UnboundedSender<T>;

/// The protocol under which the service's own topics are sent.
pub const WS_PROTOCOL: &'static str = "@wfm";

/// What the queue reports when its reader is gone.
pub const CHANNEL_CLOSED: &'static str = "channel closed";

/// A handle for enqueueing messages; it can be cloned and given to handlers.
#[derive(Clone)]
pub struct MessageSender {
    tx: UnboundedSender<WsMessage>,
}

/// Calls `UnboundedSender::send`, which either takes the message or, when the
/// receiving half is closed, hands it back in a `SendError`; that error's
/// `Display` text is "channel closed". Whether the queue is open is not known
/// here, so nothing is promised about which of the two happens.
#[verifier::external_body]
fn enqueue(tx: &UnboundedSender<WsMessage>, message: WsMessage) -> (outcome: Result<(), String>)
    ensures
        outcome matches Err(text) ==> text@ == CHANNEL_CLOSED@,
{
    tx.send(message).map_err(|e| e.to_string())
}

/// What a send reports for each outcome of the enqueue: success as it is, a
/// failure as `SendError` with the queue's own words.
pub fn send_outcome(outcome: Result<(), String>) -> (result: Result<(), WsError>)
    ensures
        match outcome {
            Ok(()) => result is Ok,
            Err(text) => result matches Err(WsError::SendError(detail)) && detail@ == text@,
        },
{
    match outcome {
        Ok(()) => Ok(()),
        Err(text) => Err(WsError::SendError(text)),
    }
}

/// The topic of `path` under the service's protocol: `@wfm|path`.
pub open spec fn service_topic(path: Seq<char>) -> Seq<char> {
    WS_PROTOCOL@ + seq!['|'] + path
}

/// Builds the topic of `path` under the service's protocol.
pub fn topic_for_path(path: &str) -> (topic: String)
    ensures
        topic@ == service_topic(path@),
{
    proof {
        reveal_strlit("|");
    }
    let mut topic = WS_PROTOCOL.to_owned();
    topic.append("|");
    assert("|"@ == seq!['|']);
    topic.append(path);
    topic
}

/// A failed send always says that the queue is closed.
pub open spec fn is_send_failure(e: WsError) -> bool {
    e matches WsError::SendError(detail) && detail@ == CHANNEL_CLOSED@
}

impl MessageSender {
    /// The sending half that the handle enqueues on.
    pub closed spec fn queue(&self) -> UnboundedSender<WsMessage> {
        self.tx
    }

    /// Wraps the sending half of a connection's outbound queue.
    pub fn new(tx: UnboundedSender<WsMessage>) -> (sender: MessageSender)
        ensures
            sender.queue() == tx,
    {
        MessageSender { tx }
    }

    /// Enqueues `message` as it is. Fails only with `SendError`, when the
    /// queue is closed; `send_outcome` says what is returned for each outcome
    /// of the enqueue.
    pub fn send_message(&self, message: WsMessage) -> (result: Result<(), WsError>)
        ensures
            result matches Err(e) ==> is_send_failure(e),
    {
        send_outcome(enqueue(&self.tx, message))
    }

    /// Enqueues a message with `payload` on the service topic of `path`: the
    /// message that `WsMessage::new` makes for the topic of `topic_for_path`.
    /// Fails only with `SendError`, when the queue is closed.
    pub fn send_message_to_path(&self, path: &str, payload: serde_json::Value) -> (result: Result<
        (),
        WsError,
    >)
        ensures
            result matches Err(e) ==> is_send_failure(e),
    {
        let topic = topic_for_path(path);
        self.send_message(WsMessage::new(topic.as_str(), Some(payload)))
    }

    /// Enqueues a message without payload on the service topic of `path`: the
    /// message that `WsMessage::new` makes for the topic of `topic_for_path`.
    /// Fails only with `SendError`, when the queue is closed.
    pub fn send_message_to_path_no_payload(&self, path: &str) -> (result: Result<(), WsError>)
        ensures
            result matches Err(e) ==> is_send_failure(e),
    {
        let topic = topic_for_path(path);
        self.send_message(WsMessage::new(topic.as_str(), None))
    }

    /// Enqueues an answer to the message `ref_id` under a fresh identifier:
    /// the message of `WsMessage::response`. Fails only with `SendError`, when
    /// the queue is closed.
    pub fn send_response(&self, route: &str, payload: serde_json::Value, ref_id: &str) -> (result:
        Result<(), WsError>)
        ensures
            result matches Err(e) ==> is_send_failure(e),
    {
        self.send_message(WsMessage::response(route, payload, fresh_id(), ref_id))
    }

    /// Enqueues a request under a fresh identifier and returns that identifier,
    /// by which the answer can be recognised.
    pub fn send_request(&self, route: &str, payload: serde_json::Value) -> (result: Result<
        String,
        WsError,
    >)
        ensures
            match result {
                Ok(id) => id@.len() == 36,
                Err(e) => is_send_failure(e),
            },
    {
        let id = fresh_id();
        let message = WsMessage::request(route, Some(payload), id.clone());
        match self.send_message(message) {
            Ok(()) => Ok(id),
            Err(e) => Err(e),
        }
    }
}

} // verus!
