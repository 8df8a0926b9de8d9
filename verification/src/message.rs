//! Inbound traffic as the dispatcher sees it: transport frames, the decoded
//! protocol messages, and the values surfaced to the caller's callback.

use vstd::prelude::*;

verus! {

/// Metadata carried by a close frame.
#[derive(Clone, Debug)]
pub struct CloseInfo {
    /// The close status code.
    pub code: u16,
    /// The close reason text.
    pub reason: String,
}

/// One discrete unit of transport-level data.
#[derive(Clone, Debug)]
pub enum Frame {
    /// A text payload, expected to hold one protocol message.
    Text(String),
    /// A binary payload; the protocol never sends one.
    Binary(Vec<u8>),
    /// A liveness probe to answer with a pong carrying the same payload.
    Ping(Vec<u8>),
    /// An answer to a ping; logged and otherwise ignored.
    Pong(Vec<u8>),
    /// The server ended the connection.
    Close(Option<CloseInfo>),
}

/// A protocol message decoded from a text frame.
pub enum Message {
    /// A server liveness probe; `id` must be echoed back.
    HeartbeatRequest { id: u64 },
    /// The server's answer to a subscription, or a pushed event on a
    /// subscribed channel; `result` is the opaque payload.
    SubscriptionResponse {
        result: Option<serde_json::Value>,
        id: i64,
        code: u64,
        channel: Option<String>,
        message: Option<String>,
    },
    /// The server's answer to an unsubscription.
    UnsubscriptionResponse { id: i64, code: u64 },
    /// The server's answer to an authentication request.
    AuthResponse { id: i64, code: u64 },
}

/// The value surfaced to the callback on a successful event.
pub enum SubscribeResult {
    /// The opaque payload of a subscription response, forwarded untouched.
    Subscription(serde_json::Value),
    /// Whether an unsubscription was accepted.
    UnsubscriptionResult { success: bool },
    /// Whether an authentication was accepted.
    AuthResult { success: bool },
}

} // verus!
