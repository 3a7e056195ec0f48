//! Dispatch messages and their response channels, exercised with the real
//! channel implementation.

use trin_jsonrpc::dispatch::{
    respond, HistoryJsonRpcRequest, PortalJsonRpcRequest, StateJsonRpcRequest,
};
use trin_jsonrpc::params::Params;
use trin_jsonrpc::value::{JsonNum, JsonValue};

#[derive(Debug, Clone, Copy, PartialEq, Eq)]
enum HistoryEndpoint {
    DataRadius,
}

#[test]
fn portal_message_carries_endpoint_and_params() {
    let (message, _rx) = PortalJsonRpcRequest::new(
        7u8,
        Params::Array(vec![JsonValue::Bool(true)]),
    );
    assert_eq!(message.endpoint, 7u8);
    assert_eq!(message.params, Params::Array(vec![JsonValue::Bool(true)]));
}

#[test]
fn portal_reply_reaches_the_receiver() {
    let (message, mut rx) = PortalJsonRpcRequest::new(1u8, Params::Absent);
    let delivered = respond(message.resp, Ok(JsonValue::Num(JsonNum::U64(42))));
    assert!(delivered);
    let got = rx.try_recv().unwrap();
    assert!(matches!(got, Ok(JsonValue::Num(JsonNum::U64(42)))));
}

#[test]
fn portal_error_reply_reaches_the_receiver() {
    let (message, mut rx) = PortalJsonRpcRequest::new(1u8, Params::Absent);
    let delivered = respond(message.resp, Err(anyhow::Error::msg("no route")));
    assert!(delivered);
    let got = rx.try_recv().unwrap();
    assert_eq!(got.unwrap_err().to_string(), "no route");
}

#[test]
fn cloned_responder_feeds_the_same_receiver() {
    let (message, mut rx) = PortalJsonRpcRequest::new(2u8, Params::Absent);
    let retained = message.clone_responder();
    drop(message);
    let delivered = respond(retained, Ok(JsonValue::Null));
    assert!(delivered);
    let got = rx.try_recv().unwrap();
    assert!(matches!(got, Ok(JsonValue::Null)));
}

#[test]
fn reply_after_receiver_gone_fails_gracefully() {
    let (message, rx) = PortalJsonRpcRequest::new(3u8, Params::Absent);
    drop(rx);
    let delivered = respond(message.resp, Ok(JsonValue::Null));
    assert!(!delivered);
}

#[test]
fn history_message_round_trip() {
    let (message, mut rx) = HistoryJsonRpcRequest::new(HistoryEndpoint::DataRadius);
    assert_eq!(message.endpoint, HistoryEndpoint::DataRadius);
    let delivered = respond(message.resp, Err("overlay unavailable".to_string()));
    assert!(delivered);
    let got = rx.try_recv().unwrap();
    assert_eq!(got, Err("overlay unavailable".to_string()));
}

#[test]
fn state_message_round_trip() {
    let (message, mut rx) = StateJsonRpcRequest::new("state_op".to_string());
    assert_eq!(message.endpoint, "state_op");
    let delivered = respond(message.resp, Ok(JsonValue::Bool(false)));
    assert!(delivered);
    let got = rx.try_recv().unwrap();
    assert_eq!(got, Ok(JsonValue::Bool(false)));
}

#[test]
fn each_message_gets_its_own_channel() {
    let (first, mut rx_first) = HistoryJsonRpcRequest::new(HistoryEndpoint::DataRadius);
    let (second, mut rx_second) = HistoryJsonRpcRequest::new(HistoryEndpoint::DataRadius);
    assert!(respond(second.resp, Ok(JsonValue::Num(JsonNum::U64(2)))));
    assert!(rx_first.try_recv().is_err());
    assert_eq!(rx_second.try_recv().unwrap(), Ok(JsonValue::Num(JsonNum::U64(2))));
    assert!(respond(first.resp, Ok(JsonValue::Num(JsonNum::U64(1)))));
    assert_eq!(rx_first.try_recv().unwrap(), Ok(JsonValue::Num(JsonNum::U64(1))));
}
