//! Per-destination dispatch messages: one message shape per internal
//! destination, each pairing an endpoint selector with the sending half of
//! a fresh response channel, over which exactly one reply is owed.
//!
//! The endpoint selector type is the destination's own business and stays a
//! type parameter here; the three message shapes stay distinct types, so a
//! message for one destination cannot land in another's queue.

use vstd::prelude::*;

use crate::params::Params;
use crate::value::JsonValue;

verus! {

/// Declares tokio's unbounded sending handle so that it can stand in the
/// message types; its values stay opaque here.
#[verifier::external_type_specification]
#[verifier::external_body]
#[verifier::reject_recursive_types(T)]
pub struct ExUnboundedSender<T>(tokio::sync::mpsc::UnboundedSender<T>);

/// Declares tokio's unbounded receiving handle; its values stay opaque
/// here and are only handed back to the transport layer.
#[verifier::external_type_specification]
#[verifier::external_body]
#[verifier::reject_recursive_types(T)]
pub struct ExUnboundedReceiver<T>(tokio::sync::mpsc::UnboundedReceiver<T>);

/// Declares the structured error type the general destination replies
/// with; its values stay opaque here and are never built by this layer.
#[verifier::external_type_specification]
#[verifier::external_body]
pub struct ExAnyhowError(anyhow::Error);

/// The sending half of a response channel: whoever answers a call pushes
/// one `Ok` or `Err` value through it.
pub type Responder<T, E> = tokio::sync::mpsc::UnboundedSender<Result<T, E>>;

/// The receiving half of a response channel: the transport layer awaits the
/// single reply on it.
pub type ResponseReceiver<T, E> = tokio::sync::mpsc::UnboundedReceiver<Result<T, E>>;

/// Relies on tokio::sync::mpsc::unbounded_channel: returns the two halves
/// of a fresh unbounded channel; what the sender's handles send, the
/// receiver receives, in send order.
#[verifier::external_body]
fn new_response_channel<T, E>() -> (Responder<T, E>, ResponseReceiver<T, E>) {
    tokio::sync::mpsc::unbounded_channel()
}

/// Relies on tokio::sync::mpsc::UnboundedSender::clone: the new handle
/// feeds the same channel as the old one.
#[verifier::external_body]
fn clone_responder_handle<T, E>(resp: &Responder<T, E>) -> Responder<T, E> {
    resp.clone()
}

/// Relies on tokio::sync::mpsc::UnboundedSender::send: delivers the value
/// unless the receiving half is gone, in which case it fails gracefully and
/// hands nothing back.
#[verifier::external_body]
fn send_into_channel<T, E>(resp: Responder<T, E>, reply: Result<T, E>) -> bool {
    resp.send(reply).is_ok()
}

/// Pushes one reply into a response channel, consuming the handle so that
/// one handle answers at most once. Returns whether the reply was taken;
/// it is refused only when the receiving half has already gone away, which
/// the caller reports as a lost destination rather than an answer.
pub fn respond<T, E>(resp: Responder<T, E>, reply: Result<T, E>) -> (delivered: bool) {
    send_into_channel(resp, reply)
}

/// A call routed to the general overlay network. Its endpoints are
/// heterogeneous, so the message carries the original parameters for the
/// endpoint to re-interpret; its reply may fail with a structured error.
#[derive(Debug)]
pub struct PortalJsonRpcRequest<E> {
    pub endpoint: E,
    pub resp: Responder<JsonValue, anyhow::Error>,
    pub params: Params,
}

/// A call routed to the history network; its reply may fail with a plain
/// message.
#[derive(Debug)]
pub struct HistoryJsonRpcRequest<E> {
    pub endpoint: E,
    pub resp: Responder<JsonValue, String>,
}

/// A call routed to the state network; its reply may fail with a plain
/// message.
#[derive(Debug)]
pub struct StateJsonRpcRequest<E> {
    pub endpoint: E,
    pub resp: Responder<JsonValue, String>,
}

impl<E> PortalJsonRpcRequest<E> {
    /// Builds the message around a fresh response channel, handing back the
    /// receiving half for the transport layer to await the single reply on.
    pub fn new(endpoint: E, params: Params) -> (r: (
        PortalJsonRpcRequest<E>,
        ResponseReceiver<JsonValue, anyhow::Error>,
    ))
        ensures
            r.0.endpoint == endpoint,
            r.0.params == params,
    {
        let (tx, rx) = new_response_channel();
        (PortalJsonRpcRequest { endpoint, resp: tx, params }, rx)
    }

    /// A further handle on the same response channel, for a creator that
    /// retains the sending half or for a multi-stage responder; every
    /// handle feeds the one receiver.
    pub fn clone_responder(&self) -> Responder<JsonValue, anyhow::Error> {
        clone_responder_handle(&self.resp)
    }
}

impl<E> HistoryJsonRpcRequest<E> {
    /// Builds the message around a fresh response channel, handing back the
    /// receiving half for the transport layer to await the single reply on.
    pub fn new(endpoint: E) -> (r: (
        HistoryJsonRpcRequest<E>,
        ResponseReceiver<JsonValue, String>,
    ))
        ensures
            r.0.endpoint == endpoint,
    {
        let (tx, rx) = new_response_channel();
        (HistoryJsonRpcRequest { endpoint, resp: tx }, rx)
    }

    /// A further handle on the same response channel; every handle feeds
    /// the one receiver.
    pub fn clone_responder(&self) -> Responder<JsonValue, String> {
        clone_responder_handle(&self.resp)
    }
}

impl<E> StateJsonRpcRequest<E> {
    /// Builds the message around a fresh response channel, handing back the
    /// receiving half for the transport layer to await the single reply on.
    pub fn new(endpoint: E) -> (r: (
        StateJsonRpcRequest<E>,
        ResponseReceiver<JsonValue, String>,
    ))
        ensures
            r.0.endpoint == endpoint,
    {
        let (tx, rx) = new_response_channel();
        (StateJsonRpcRequest { endpoint, resp: tx }, rx)
    }

    /// A further handle on the same response channel; every handle feeds
    /// the one receiver.
    pub fn clone_responder(&self) -> Responder<JsonValue, String> {
        clone_responder_handle(&self.resp)
    }
}

} // verus!
