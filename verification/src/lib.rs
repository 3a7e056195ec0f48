//! Typed validation boundary for inbound JSON-RPC requests of a multi-network
//! peer-to-peer node: a strict model of request parameters, an envelope
//! validator, per-destination dispatch messages carrying a response channel,
//! and a decoder for the "total + peer records" parameter shape.

pub mod dispatch;
pub mod errors;
pub mod nodes;
pub mod params;
pub mod request;
pub mod value;
