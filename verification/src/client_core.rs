//! The session state machine of the client facade: connection state, the
//! endpoint addresses, and the outbound message id counter, together with
//! the request-building rules that guard them.

use vstd::prelude::*;
use vstd::string::StringSliceAdditionalSpecFns;

use crate::auth::{sign, signature_chars};
use crate::error::CryptoError;
use crate::subscription::{
    auth_json, encode_request, subscribe_json, unsubscribe_json, Request, UnsubscribeParams,
};

verus! {

/// The verified state of one client: whether a session is connected, the
/// next outbound message id, and the two endpoint addresses. The transport
/// machinery itself lives with the caller; every decision about ids and
/// connection state is made here.
pub struct ClientCore {
    /// Whether a session is currently connected.
    pub connected: bool,
    /// The id the next id-bearing request will carry; starts at 1 and
    /// increments exactly when a send succeeds.
    pub next_id: u64,
    /// The market-data stream endpoint.
    pub market_url: String,
    /// The user/account stream endpoint.
    pub user_url: String,
}

impl ClientCore {
    /// A fresh, disconnected client with the well-known endpoints and the
    /// id counter at one.
    pub fn new() -> (c: ClientCore)
        ensures
            !c.connected,
            c.next_id == 1,
            c.market_url@ == "wss://stream.crypto.com/v2/market"@,
            c.user_url@ == "wss://stream.crypto.com/v2/user"@,
    {
        ClientCore {
            connected: false,
            next_id: 1,
            market_url: "wss://stream.crypto.com/v2/market".to_owned(),
            user_url: "wss://stream.crypto.com/v2/user".to_owned(),
        }
    }

    /// Replaces the market-data endpoint.
    pub fn with_market_url(self, url: String) -> (c: ClientCore)
        ensures
            c.market_url == url,
            c.user_url == self.user_url,
            c.connected == self.connected,
            c.next_id == self.next_id,
    {
        ClientCore { market_url: url, ..self }
    }

    /// Replaces the user-stream endpoint.
    pub fn with_user_url(self, url: String) -> (c: ClientCore)
        ensures
            c.user_url == url,
            c.market_url == self.market_url,
            c.connected == self.connected,
            c.next_id == self.next_id,
    {
        ClientCore { user_url: url, ..self }
    }

    /// Records that a transport was opened; connecting while already
    /// connected simply replaces the prior transport, so the id counter is
    /// untouched.
    pub fn on_connected(&mut self)
        ensures
            final(self).connected,
            final(self).next_id == old(self).next_id,
            final(self).market_url == old(self).market_url,
            final(self).user_url == old(self).user_url,
    {
        self.connected = true;
    }

    /// Records that the session ended; protocol actions fail with a
    /// not-connected error from here on.
    pub fn on_disconnected(&mut self)
        ensures
            !final(self).connected,
            final(self).next_id == old(self).next_id,
            final(self).market_url == old(self).market_url,
            final(self).user_url == old(self).user_url,
    {
        self.connected = false;
    }

    /// Records the outcome of sending one id-bearing request: the id
    /// advances by exactly one when the send succeeded, and is left
    /// unchanged when it failed, so the next attempt reuses it.
    pub fn record_send(&mut self, success: bool)
        requires
            success ==> old(self).next_id < u64::MAX,
        ensures
            success ==> final(self).next_id == old(self).next_id + 1,
            !success ==> final(self).next_id == old(self).next_id,
            final(self).connected == old(self).connected,
            final(self).market_url == old(self).market_url,
            final(self).user_url == old(self).user_url,
    {
        if success {
            self.next_id = self.next_id + 1;
        }
    }

    /// The wire text of a subscription request for a caller-supplied params
    /// value, carrying the current id; fails without touching any state
    /// when no session is connected.
    pub fn subscribe_request(&self, params: &str, nonce: u128) -> (r: Result<String, CryptoError>)
        ensures
            self.connected ==> (r matches Ok(t) && t@ == subscribe_json(
                self.next_id,
                params@,
                nonce,
            )),
            !self.connected ==> r == Err::<String, CryptoError>(CryptoError::NotConnectedError),
    {
        if self.connected {
            Ok(
                encode_request(
                    &Request::Subscribe { id: self.next_id, params: params.to_owned(), nonce },
                ),
            )
        } else {
            Err(CryptoError::NotConnectedError)
        }
    }

    /// The wire text of an unsubscription request for a list of channels,
    /// carrying the current id; fails without touching any state when no
    /// session is connected.
    pub fn unsubscribe_request(&self, channels: Vec<String>, nonce: u128) -> (r: Result<
        String,
        CryptoError,
    >)
        ensures
            self.connected ==> (r matches Ok(t) && t@ == unsubscribe_json(
                self.next_id,
                channels.deep_view(),
                nonce,
            )),
            !self.connected ==> r == Err::<String, CryptoError>(CryptoError::NotConnectedError),
    {
        if self.connected {
            Ok(
                encode_request(
                    &Request::Unsubscribe {
                        id: self.next_id,
                        params: UnsubscribeParams { channels },
                        nonce,
                    },
                ),
            )
        } else {
            Err(CryptoError::NotConnectedError)
        }
    }

    /// The wire text of an authentication request, carrying the current id
    /// and the signature over the credentials and metadata; fails without
    /// touching any state when no session is connected.
    pub fn auth_request(&self, api_key: &str, api_secret: &str, nonce: u128) -> (r: Result<
        String,
        CryptoError,
    >)
        ensures
            self.connected ==> (r matches Ok(t) && t@ == auth_json(
                self.next_id,
                api_key@,
                signature_chars(api_key@, api_secret.spec_bytes(), self.next_id, nonce),
                nonce,
            )),
            !self.connected ==> r == Err::<String, CryptoError>(CryptoError::NotConnectedError),
    {
        if self.connected {
            let sig = match sign(api_key, api_secret, self.next_id, nonce) {
                Ok(sig) => sig,
                Err(e) => {
                    return Err(e);
                },
            };
            Ok(
                encode_request(
                    &Request::Auth {
                        id: self.next_id,
                        api_key: api_key.to_owned(),
                        sig,
                        nonce,
                    },
                ),
            )
        } else {
            Err(CryptoError::NotConnectedError)
        }
    }
}

} // verus!
