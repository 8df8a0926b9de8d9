//! Verified client core for a streaming publish/subscribe market-data
//! protocol: outbound request encoding, authentication signatures, inbound
//! frame classification, and the session state machine.

pub mod auth;
pub mod book;
pub mod candlestick;
pub mod client_core;
pub mod clock;
pub mod decode;
pub mod dispatch;
pub mod error;
pub mod jsontext;
pub mod jsonvalue;
pub mod message;
pub mod numfmt;
pub mod strops;
pub mod subscription;
