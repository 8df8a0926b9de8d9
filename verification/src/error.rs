//! The closed error taxonomy surfaced to the callback or returned from
//! request-issuing calls.

use vstd::prelude::*;

use crate::message::{CloseInfo, Frame};

verus! {

/// Every way an operation or the background loop can fail.
#[derive(Clone, Debug)]
pub enum CryptoError {
    /// The background task could not be joined.
    JoinError(String),
    /// A transport error observed on the write path.
    TungsteniteError(String),
    /// A transport error observed on the read loop, carried as text; kept
    /// apart from the write-path variant because the two are observed at
    /// different points.
    TungsteniteErrorString(String),
    /// The server rejected a subscription.
    SubscriptionError { id: i64, code: u64, message: Option<String>, channel: Option<String> },
    /// A payload could not be decoded.
    SerdeError(String),
    /// The server closed the connection.
    CloseError { frame: Option<CloseInfo> },
    /// A frame of a kind the protocol never sends.
    UnexpectedMessageError { message: Frame },
    /// A protocol action was attempted without an active session.
    NotConnectedError,
    /// The signing key was rejected by the keyed-hash implementation.
    ShaInvalidLength,
}

} // verus!
