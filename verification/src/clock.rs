//! Nonces: the millisecond clock reading stamped onto id-bearing requests,
//! with a deliberate fallback to zero when the clock read fails.

use vstd::prelude::*;

verus! {

/// Relies on std time: SystemTime::now, duration_since(UNIX_EPOCH) and
/// Duration::as_millis give the milliseconds since the Unix epoch; None
/// when the clock reads before the epoch.
#[verifier::external_body]
fn now_epoch_millis() -> (r: Option<u128>) {
    match std::time::SystemTime::now().duration_since(std::time::UNIX_EPOCH) {
        Ok(d) => Some(d.as_millis()),
        Err(_) => None,
    }
}

/// The nonce for a clock reading: the reading itself, or exactly zero when
/// the clock failed. The fallback is deliberate and part of the protocol
/// behavior.
pub fn nonce_from_clock(reading: Option<u128>) -> (n: u128)
    ensures
        reading matches Some(v) ==> n == v,
        reading is None ==> n == 0,
{
    match reading {
        Some(v) => v,
        None => 0,
    }
}

/// Milliseconds since the Unix epoch, or zero when the clock read fails.
pub fn nonce() -> u128 {
    nonce_from_clock(now_epoch_millis())
}

} // verus!
