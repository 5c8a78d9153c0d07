use std::cell::RefCell;
use std::rc::Rc;
use std::sync::{Arc, Mutex};
use tokio::sync::mpsc::{unbounded_channel, UnboundedReceiver};
use wf_market::client::ws::handle::{request_on, respond_on, send_on, send_to_path_on};
use wf_market::client::ws::router::Router;
use wf_market::client::ws::sender::{send_outcome, topic_for_path};
use wf_market::client::ws::{MessageSender, Route, WsClient, WsMessage};
use wf_market::error::WsError;

type Handler = Box<dyn Fn(&WsMessage, &Route, &MessageSender) -> Result<(), WsError>>;

fn json(text: &str) -> serde_json::Value {
    serde_json::from_str(text).unwrap()
}

fn open_queue() -> (MessageSender, UnboundedReceiver<WsMessage>) {
    let (tx, rx) = unbounded_channel::<WsMessage>();
    (MessageSender::new(tx), rx)
}

fn closed_queue() -> MessageSender {
    let (tx, rx) = unbounded_channel::<WsMessage>();
    drop(rx);
    MessageSender::new(tx)
}

fn is_hyphenated_uuid(id: &str) -> bool {
    id.len() == 36
        && id.char_indices().all(|(i, c)| match i {
            8 | 13 | 18 | 23 => c == '-',
            _ => c.is_ascii_hexdigit() && !c.is_ascii_uppercase(),
        })
}

#[test]
fn new_message_gets_a_fresh_identifier() {
    let a = WsMessage::new("@wfm|cmd/status/set", Some(json(r#"{"status":"invisible"}"#)));
    let b = WsMessage::new("@wfm|cmd/status/set", None);
    assert_eq!(a.route, "@wfm|cmd/status/set");
    assert_eq!(a.payload, Some(json(r#"{"status":"invisible"}"#)));
    assert_eq!(b.payload, None);
    assert_eq!(a.ref_id, None);
    assert!(is_hyphenated_uuid(a.id.as_ref().unwrap()));
    assert!(is_hyphenated_uuid(b.id.as_ref().unwrap()));
    assert_ne!(a.id, b.id);
}

#[test]
fn request_and_response_carry_what_they_are_given() {
    let request = WsMessage::request("a|b", Some(json("[1,2]")), "id-7".to_string());
    assert_eq!(request.route, "a|b");
    assert_eq!(request.payload, Some(json("[1,2]")));
    assert_eq!(request.id, Some("id-7".to_string()));
    assert_eq!(request.ref_id, None);

    let response = WsMessage::response("a|b:ok", json("null"), "id-8".to_string(), "id-7");
    assert_eq!(response.route, "a|b:ok");
    assert_eq!(response.payload, Some(serde_json::Value::Null));
    assert_eq!(response.id, Some("id-8".to_string()));
    assert_eq!(response.ref_id, Some("id-7".to_string()));
}

#[test]
fn connect_and_disconnect_messages_are_internal() {
    let connect = WsMessage::connect();
    assert_eq!(connect.route, "@internal|internal/connected");
    assert_eq!(connect.payload, Some(json(r#"{"status":"connected"}"#)));
    assert_eq!(connect.id, Some("INTERNAL".to_string()));
    assert_eq!(connect.ref_id, None);

    let disconnect = WsMessage::disconnect("gone \"away\"".to_string());
    assert_eq!(disconnect.route, "@internal|internal/disconnected");
    assert_eq!(disconnect.payload, Some(json(r#"{"reason":"gone \"away\""}"#)));
    assert_eq!(disconnect.id, Some("INTERNAL".to_string()));
    assert_eq!(disconnect.ref_id, None);
}

#[test]
fn send_outcome_maps_each_case() {
    assert_eq!(send_outcome(Ok(())), Ok(()));
    assert_eq!(
        send_outcome(Err("channel closed".to_string())),
        Err(WsError::SendError("channel closed".to_string()))
    );
}

#[test]
fn sender_enqueues_in_order() {
    let (sender, mut rx) = open_queue();
    sender.send_message(WsMessage::request("a|1", None, "x".to_string())).unwrap();
    sender.send_message(WsMessage::request("a|2", None, "y".to_string())).unwrap();
    assert_eq!(rx.try_recv().unwrap().route, "a|1");
    assert_eq!(rx.try_recv().unwrap().route, "a|2");
    assert!(rx.try_recv().is_err());
}

#[test]
fn sender_on_closed_queue_fails_with_send_error() {
    let sender = closed_queue();
    let expected = Err(WsError::SendError("channel closed".to_string()));
    assert_eq!(sender.send_message(WsMessage::request("a|b", None, "x".to_string())), expected);
    assert_eq!(sender.send_response("a|b", json("1"), "r"), expected);
    assert_eq!(sender.send_message_to_path("p", json("1")), expected);
    assert_eq!(sender.send_message_to_path_no_payload("p"), expected);
    assert_eq!(
        sender.send_request("a|b", json("1")),
        Err(WsError::SendError("channel closed".to_string()))
    );
}

#[test]
fn send_request_returns_the_identifier_it_sent() {
    let (sender, mut rx) = open_queue();
    let id = sender.send_request("@wfm|cmd/status/set", json(r#"{"status":"invisible"}"#)).unwrap();
    let sent = rx.try_recv().unwrap();
    assert!(is_hyphenated_uuid(&id));
    assert_eq!(sent.id, Some(id));
    assert_eq!(sent.route, "@wfm|cmd/status/set");
    assert_eq!(sent.payload, Some(json(r#"{"status":"invisible"}"#)));
    assert_eq!(sent.ref_id, None);
}

#[test]
fn send_response_refers_to_the_request() {
    let (sender, mut rx) = open_queue();
    sender.send_response("@wfm|cmd/x:ok", json("true"), "req-1").unwrap();
    let sent = rx.try_recv().unwrap();
    assert_eq!(sent.route, "@wfm|cmd/x:ok");
    assert_eq!(sent.payload, Some(json("true")));
    assert_eq!(sent.ref_id, Some("req-1".to_string()));
    assert!(is_hyphenated_uuid(sent.id.as_ref().unwrap()));
}

#[test]
fn path_sends_use_the_service_protocol() {
    assert_eq!(topic_for_path("cmd/status/set"), "@wfm|cmd/status/set");
    assert_eq!(topic_for_path(""), "@wfm|");
    let (sender, mut rx) = open_queue();
    sender.send_message_to_path("cmd/status/set", json("5")).unwrap();
    sender.send_message_to_path_no_payload("cmd/ping").unwrap();
    let first = rx.try_recv().unwrap();
    let second = rx.try_recv().unwrap();
    assert_eq!(first.route, "@wfm|cmd/status/set");
    assert_eq!(first.payload, Some(json("5")));
    assert_eq!(second.route, "@wfm|cmd/ping");
    assert_eq!(second.payload, None);
}

#[test]
fn handle_without_epoch_fails_fast() {
    let client = WsClient::new(Arc::new(Mutex::new(None)));
    assert!(client.get_sender().is_none());
    assert_eq!(
        client.send_message(WsMessage::request("@wfm|a", None, "x".to_string())),
        Err(WsError::ConnectionError)
    );
    assert_eq!(client.send_response("@wfm|a", json("1"), "r"), Err(WsError::NotConnected));
    assert_eq!(client.send_request("@wfm|a", json("1")), Err(WsError::NotConnected));
    assert_eq!(client.send_message_to_path("a", json("1")), Err(WsError::NotConnected));
    assert_eq!(client.send_message_to_path_no_payload("a"), Err(WsError::NotConnected));
}

#[test]
fn handle_with_epoch_enqueues() {
    let (sender, mut rx) = open_queue();
    let slot = Arc::new(Mutex::new(Some(sender)));
    let client = WsClient::new(Arc::clone(&slot));
    assert!(client.get_sender().is_some());
    client.send_message(WsMessage::request("@wfm|a", None, "x".to_string())).unwrap();
    let id = client.send_request("@wfm|cmd/status/set", json(r#"{"status":"invisible"}"#)).unwrap();
    client.send_response("@wfm|b", json("1"), "r").unwrap();
    client.send_message_to_path("c", json("2")).unwrap();
    client.send_message_to_path_no_payload("d").unwrap();
    assert_eq!(rx.try_recv().unwrap().route, "@wfm|a");
    assert_eq!(rx.try_recv().unwrap().id, Some(id));
    assert_eq!(rx.try_recv().unwrap().ref_id, Some("r".to_string()));
    assert_eq!(rx.try_recv().unwrap().route, "@wfm|c");
    assert_eq!(rx.try_recv().unwrap().route, "@wfm|d");

    *slot.lock().unwrap() = None;
    assert_eq!(client.send_request("@wfm|a", json("1")), Err(WsError::NotConnected));
}

#[test]
fn handle_refuses_topics_of_the_transport() {
    let (sender, mut rx) = open_queue();
    let client = WsClient::new(Arc::new(Mutex::new(Some(sender))));
    for topic in ["@internal|internal/connected", "internal|x", "@wfm|cmd/auth/signIn", "@wfm|cmd/auth/signIn:ok", "@internal|"] {
        assert_eq!(client.send_request(topic, json("1")), Err(refusal()));
        assert_eq!(client.send_response(topic, json("1"), "r"), Err(refusal()));
        assert_eq!(
            client.send_message(WsMessage::request(topic, None, "x".to_string())),
            Err(refusal())
        );
    }
    assert!(rx.try_recv().is_err());
}

fn refusal() -> WsError {
    WsError::ReservedPath("Can't send on internal routes".to_string())
}

#[test]
fn refusal_comes_before_the_connection_check() {
    let refused = Err(WsError::ReservedPath("Can't send on internal routes".to_string()));
    assert_eq!(send_on(None, WsMessage::request("@internal|x", None, "i".to_string())), refused);
    assert_eq!(
        respond_on(None, "@internal|x", json("1"), "r"),
        Err(WsError::ReservedPath("Can't send on internal routes".to_string()))
    );
    assert_eq!(
        request_on(None, "@internal|x", json("1")),
        Err(WsError::ReservedPath("Can't send on internal routes".to_string()))
    );
}

#[test]
fn request_on_unparseable_topic_is_invalid_path() {
    let (sender, mut rx) = open_queue();
    assert_eq!(
        request_on(Some(sender), "cmd/status/set", json("1")),
        Err(WsError::InvalidPath("cmd/status/set".to_string()))
    );
    assert_eq!(request_on(None, "", json("1")), Err(WsError::InvalidPath(String::new())));
    assert!(rx.try_recv().is_err());
}

#[test]
fn plain_sends_pass_unparseable_topics_through() {
    let (sender, mut rx) = open_queue();
    assert_eq!(
        send_on(Some(sender.clone()), WsMessage::request("no-delimiter", None, "i".to_string())),
        Ok(())
    );
    assert_eq!(respond_on(Some(sender.clone()), "no-delimiter", json("1"), "r"), Ok(()));
    assert_eq!(send_to_path_on(Some(sender), "x", None), Ok(()));
    assert_eq!(rx.try_recv().unwrap().route, "no-delimiter");
    assert_eq!(rx.try_recv().unwrap().route, "no-delimiter");
    assert_eq!(rx.try_recv().unwrap().route, "@wfm|x");
    assert_eq!(send_to_path_on(None, "x", Some(json("1"))), Err(WsError::NotConnected));
}

#[test]
fn sends_on_a_closed_epoch_report_the_queue() {
    let expected = WsError::SendError("channel closed".to_string());
    assert_eq!(
        send_on(Some(closed_queue()), WsMessage::request("a|b", None, "i".to_string())),
        Err(WsError::SendError("channel closed".to_string()))
    );
    assert_eq!(request_on(Some(closed_queue()), "a|b", json("1")).unwrap_err(), expected);
}

#[test]
fn text_frames_are_dispatched_or_rejected() {
    let seen = Rc::new(RefCell::new(Vec::new()));
    let sink = Rc::clone(&seen);
    let mut router: Router<Handler> = Router::new();
    router
        .register(
            "event/reports/online",
            Box::new(move |message, _, _| {
                sink.borrow_mut().push(message.route.clone());
                Ok(())
            }),
        )
        .unwrap();
    let (sender, _rx) = open_queue();
    let decoded = WsMessage::request("@wfm|event/reports/online", Some(json("{}")), "1".to_string());
    assert_eq!(WsClient::handle_text_message(&router, "{..}", Some(decoded), &sender), Ok(()));
    assert_eq!(
        WsClient::handle_text_message(&router, "not json", None, &sender),
        Err(WsError::InvalidMessageReceived("not json".to_string()))
    );
    assert_eq!(*seen.borrow(), vec!["@wfm|event/reports/online".to_string()]);
}

#[test]
fn connect_and_disconnect_reach_their_handlers() {
    let seen: Rc<RefCell<Vec<WsMessage>>> = Rc::new(RefCell::new(Vec::new()));
    let mut router: Router<Handler> = Router::new();
    for path in ["internal/connected", "internal/disconnected"] {
        let sink = Rc::clone(&seen);
        router
            .register(
                path,
                Box::new(move |message, _, _| {
                    sink.borrow_mut().push(message.clone());
                    Ok(())
                }),
            )
            .unwrap();
    }
    let (sender, _rx) = open_queue();
    assert_eq!(WsClient::send_connect_message(&router, &sender), Ok(()));
    let farewell = WsMessage::disconnect("why".to_string());
    assert_eq!(WsClient::send_disconnect_message(&router, &farewell, &sender), Ok(()));
    let seen = seen.borrow();
    assert_eq!(seen.len(), 2);
    assert_eq!(seen[0].route, "@internal|internal/connected");
    assert_eq!(seen[0].payload, Some(json(r#"{"status":"connected"}"#)));
    assert_eq!(seen[1].route, "@internal|internal/disconnected");
    assert_eq!(seen[1].payload, Some(json(r#"{"reason":"why"}"#)));
}

#[test]
fn path_sends_refuse_reserved_paths() {
    let (sender, mut rx) = open_queue();
    let client = WsClient::new(Arc::new(Mutex::new(Some(sender))));
    for path in ["cmd/auth/signIn", "cmd/auth/signIn:ok", "cmd/auth/signIn:"] {
        assert_eq!(client.send_message_to_path(path, json("1")), Err(refusal()));
        assert_eq!(client.send_message_to_path_no_payload(path), Err(refusal()));
    }
    assert!(rx.try_recv().is_err());
    assert_eq!(client.send_message_to_path("cmd/auth/signInX", json("1")), Ok(()));
    assert_eq!(client.send_message_to_path_no_payload("cmd/auth"), Ok(()));
    assert_eq!(client.send_message_to_path_no_payload("x|cmd/auth/signIn"), Ok(()));
    assert_eq!(rx.try_recv().unwrap().route, "@wfm|cmd/auth/signInX");
    assert_eq!(rx.try_recv().unwrap().route, "@wfm|cmd/auth");
    assert_eq!(rx.try_recv().unwrap().route, "@wfm|x|cmd/auth/signIn");
}

#[test]
fn path_refusal_comes_before_the_connection_check() {
    assert_eq!(send_to_path_on(None, "cmd/auth/signIn", None), Err(refusal()));
    assert_eq!(send_to_path_on(None, "cmd/auth/signIn:ok", Some(json("1"))), Err(refusal()));
    assert_eq!(send_to_path_on(Some(closed_queue()), "cmd/auth/signIn", None), Err(refusal()));
    assert_eq!(send_to_path_on(None, "cmd/status/set", None), Err(WsError::NotConnected));
    assert_eq!(
        send_to_path_on(Some(closed_queue()), "cmd/status/set", None),
        Err(WsError::SendError("channel closed".to_string()))
    );
    let empty = WsClient::new(Arc::new(Mutex::new(None)));
    assert_eq!(empty.send_message_to_path("cmd/auth/signIn", json("1")), Err(refusal()));
    assert_eq!(empty.send_message_to_path_no_payload("cmd/auth/signIn"), Err(refusal()));
}
