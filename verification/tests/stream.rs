use std::collections::BTreeMap;

use async_tungstenite::tungstenite::Error as EngineError;
use gateway_ws::error::{ClosureSignal, WsError};
use gateway_ws::frame::RawFrame;
use gateway_ws::stream::{
    encode_printed, receive, Inbox, Outbox, Polled, ReceiverExt, SenderExt, RECEIVE_WAIT_MILLIS,
};
use serde_json::Value;

fn heartbeat() -> Value {
    let mut map = serde_json::Map::new();
    map.insert("op".to_string(), Value::from(1));
    map.insert("d".to_string(), Value::Null);
    Value::Object(map)
}

#[test]
fn wait_is_half_a_second() {
    assert_eq!(RECEIVE_WAIT_MILLIS, 500);
}

#[test]
fn elapsed_wait_is_no_data() {
    assert!(matches!(receive(Polled::TimedOut), Ok(None)));
}

#[test]
fn ended_stream_is_no_data() {
    assert!(matches!(receive(Polled::Ended), Ok(None)));
}

#[test]
fn engine_failure_is_transport_error() {
    let result = receive(Polled::Failed(EngineError::ConnectionClosed));
    assert!(matches!(result, Err(WsError::Transport(EngineError::ConnectionClosed))));
    let result = receive(Polled::Failed(EngineError::AlreadyClosed));
    assert!(matches!(result, Err(WsError::Transport(EngineError::AlreadyClosed))));
}

#[test]
fn arrived_frame_is_decoded() {
    let result = receive(Polled::Frame(RawFrame::Text("{\"op\":11}".to_string())));
    let mut map = serde_json::Map::new();
    map.insert("op".to_string(), Value::from(11));
    assert!(matches!(result, Ok(Some(value)) if value == Value::Object(map)));
}

#[test]
fn arrived_frame_keeps_decoder_errors() {
    let result = receive(Polled::Frame(RawFrame::Text("not json".to_string())));
    assert!(matches!(result, Err(WsError::Decode(_))));
    let result = receive(Polled::Frame(RawFrame::Binary(vec![9, 9, 9])));
    assert!(matches!(result, Err(WsError::Decompression(_))));
    let signal = ClosureSignal { code: 4000, reason: "unknown error".to_string() };
    let result = receive(Polled::Frame(RawFrame::Close(Some(signal.clone()))));
    assert!(matches!(result, Err(WsError::Closed(got)) if got == signal));
    assert!(matches!(receive(Polled::Frame(RawFrame::Ping(vec![0]))), Ok(None)));
}

#[test]
fn inbox_hands_out_once() {
    let mut inbox = Inbox::new();
    assert!(matches!(inbox.recv_json(), Ok(None)));
    inbox.deliver(Polled::Frame(RawFrame::Text("true".to_string())));
    assert!(matches!(inbox.recv_json(), Ok(Some(Value::Bool(true)))));
    assert!(inbox.waiting.is_none());
    assert!(matches!(inbox.recv_json(), Ok(None)));
}

#[test]
fn inbox_reports_engine_failure() {
    let mut inbox = Inbox::new();
    inbox.deliver(Polled::Failed(EngineError::ConnectionClosed));
    assert!(matches!(inbox.recv_json(), Err(WsError::Transport(_))));
    assert!(matches!(inbox.recv_json(), Ok(None)));
}

#[test]
fn inbox_quiet_wait() {
    let mut inbox = Inbox::new();
    inbox.deliver(Polled::TimedOut);
    assert!(matches!(inbox.recv_json(), Ok(None)));
    inbox.deliver(Polled::Ended);
    assert!(matches!(inbox.recv_json(), Ok(None)));
}

#[test]
fn outbox_keeps_the_order_of_sends() {
    let mut outbox = Outbox::new();
    assert!(outbox.texts.is_empty());
    outbox.send_json(&heartbeat()).unwrap();
    outbox.send_json(&Value::from(3)).unwrap();
    assert_eq!(outbox.texts, vec!["{\"d\":null,\"op\":1}".to_string(), "3".to_string()]);
    let taken = outbox.drain();
    assert_eq!(taken, vec!["{\"d\":null,\"op\":1}".to_string(), "3".to_string()]);
    assert!(outbox.texts.is_empty());
    assert!(outbox.drain().is_empty());
}

#[test]
fn failed_print_is_serialization_error() {
    let mut unprintable: BTreeMap<(u8, u8), u8> = BTreeMap::new();
    unprintable.insert((1, 2), 3);
    let cause = serde_json::to_string(&unprintable).unwrap_err();
    let message = cause.to_string();
    match encode_printed(Err(cause)) {
        Err(WsError::Serialization(why)) => assert_eq!(why.to_string(), message),
        other => panic!("expected a serialization error, got {:?}", other),
    }
}

#[test]
fn printed_text_is_handed_on() {
    let result = encode_printed(Ok("{\"op\":1}".to_string()));
    assert!(matches!(result, Ok(text) if text == "{\"op\":1}"));
}
