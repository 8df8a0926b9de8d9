//! Outbound protocol requests and their exact wire text.
//!
//! Every request is serialized to a JSON object whose `method` field names
//! the request kind; the encoding below states that text character by
//! character.

use vstd::prelude::*;

use crate::jsontext::{json_quote, json_quoted};
use crate::numfmt::{dec_digits, u128_to_dec};

verus! {

/// Parameters of a subscription.
pub struct SubscribeParams {
    /// The channels to subscribe, for example `user.order.ETH_CRO`.
    pub channels: Vec<String>,
}

/// Parameters of an unsubscription.
pub struct UnsubscribeParams {
    /// The channels to unsubscribe, for example `user.order.ETH_CRO`.
    pub channels: Vec<String>,
}

/// A request sent from the client to the exchange.
pub enum Request {
    /// Answer to a server heartbeat; `id` echoes the one the server sent.
    HeartbeatResponse { id: u64 },
    /// Subscription request; `params` is a caller-supplied JSON value,
    /// embedded in the wire text verbatim.
    Subscribe { id: u64, params: String, nonce: u128 },
    /// Unsubscription request for a list of channels.
    Unsubscribe { id: u64, params: UnsubscribeParams, nonce: u128 },
    /// Authentication request carrying the key and its signature.
    Auth { id: u64, api_key: String, sig: String, nonce: u128 },
}

/// The comma-separated JSON string literals of a channel list.
pub open spec fn channels_inner(chs: Seq<Seq<char>>) -> Seq<char>
    decreases chs.len(),
{
    if chs.len() == 0 {
        Seq::empty()
    } else if chs.len() == 1 {
        json_quoted(chs[0])
    } else {
        channels_inner(chs.drop_last()) + ","@ + json_quoted(chs.last())
    }
}

/// A channel list as a JSON array of strings.
pub open spec fn channels_json(chs: Seq<Seq<char>>) -> Seq<char> {
    "["@ + channels_inner(chs) + "]"@
}

/// The params object of an unsubscription.
pub open spec fn unsubscribe_params_json(chs: Seq<Seq<char>>) -> Seq<char> {
    "{\"channels\":"@ + channels_json(chs) + "}"@
}

/// The wire text of a heartbeat response.
pub open spec fn heartbeat_response_json(id: u64) -> Seq<char> {
    "{\"method\":\"public/respond-heartbeat\",\"id\":"@ + dec_digits(id as nat) + "}"@
}

/// The wire text of a subscription request; `params` stands verbatim.
pub open spec fn subscribe_json(id: u64, params: Seq<char>, nonce: u128) -> Seq<char> {
    "{\"method\":\"subscribe\",\"id\":"@ + dec_digits(id as nat) + ",\"params\":"@ + params
        + ",\"nonce\":"@ + dec_digits(nonce as nat) + "}"@
}

/// The wire text of an unsubscription request.
pub open spec fn unsubscribe_json(id: u64, chs: Seq<Seq<char>>, nonce: u128) -> Seq<char> {
    "{\"method\":\"unsubscribe\",\"id\":"@ + dec_digits(id as nat) + ",\"params\":"@
        + unsubscribe_params_json(chs) + ",\"nonce\":"@ + dec_digits(nonce as nat) + "}"@
}

/// The wire text of an authentication request.
pub open spec fn auth_json(id: u64, api_key: Seq<char>, sig: Seq<char>, nonce: u128) -> Seq<
    char,
> {
    "{\"method\":\"public/auth\",\"id\":"@ + dec_digits(id as nat) + ",\"api_key\":"@
        + json_quoted(api_key) + ",\"sig\":"@ + json_quoted(sig) + ",\"nonce\":"@ + dec_digits(
        nonce as nat,
    ) + "}"@
}

/// The wire text of any outbound request.
pub open spec fn request_json(r: Request) -> Seq<char> {
    match r {
        Request::HeartbeatResponse { id } => heartbeat_response_json(id),
        Request::Subscribe { id, params, nonce } => subscribe_json(id, params@, nonce),
        Request::Unsubscribe { id, params, nonce } => unsubscribe_json(
            id,
            params.channels.deep_view(),
            nonce,
        ),
        Request::Auth { id, api_key, sig, nonce } => auth_json(id, api_key@, sig@, nonce),
    }
}

/// Renders a channel list as a JSON array of string literals.
fn channels_to_json(chs: &Vec<String>) -> (s: String)
    ensures
        s@ == channels_json(chs.deep_view()),
{
    let mut s = "[".to_owned();
    let mut i: usize = 0;
    while i < chs.len()
        invariant
            i <= chs.len(),
            s@ == "["@ + channels_inner(chs.deep_view().take(i as int)),
        decreases chs.len() - i,
    {
        if i > 0 {
            s.append(",");
        }
        let q = json_quote(chs[i].as_str());
        s.append(q.as_str());
        proof {
            let view = chs.deep_view();
            assert(view.take(i + 1 as int).drop_last() =~= view.take(i as int));
            assert(view.take(i + 1 as int).last() == chs[i as int]@);
            assert(s@ =~= "["@ + channels_inner(view.take(i + 1 as int)));
        }
        i += 1;
    }
    s.append("]");
    proof {
        assert(chs.deep_view().take(chs.len() as int) =~= chs.deep_view());
        assert(s@ =~= channels_json(chs.deep_view()));
    }
    s
}

impl UnsubscribeParams {
    /// Renders the params object of an unsubscription.
    pub fn to_json(&self) -> (s: String)
        ensures
            s@ == unsubscribe_params_json(self.channels.deep_view()),
    {
        let mut s = "{\"channels\":".to_owned();
        let arr = channels_to_json(&self.channels);
        s.append(arr.as_str());
        s.append("}");
        proof {
            assert(s@ =~= unsubscribe_params_json(self.channels.deep_view()));
        }
        s
    }
}

impl SubscribeParams {
    /// Renders the params object of a subscription: the same shape as the
    /// unsubscription params, a JSON array of channel names.
    pub fn to_json(&self) -> (s: String)
        ensures
            s@ == unsubscribe_params_json(self.channels.deep_view()),
    {
        let mut s = "{\"channels\":".to_owned();
        let arr = channels_to_json(&self.channels);
        s.append(arr.as_str());
        s.append("}");
        proof {
            assert(s@ =~= unsubscribe_params_json(self.channels.deep_view()));
        }
        s
    }
}

/// Renders any outbound request as its wire text.
pub fn encode_request(r: &Request) -> (s: String)
    ensures
        s@ == request_json(*r),
{
    match r {
        Request::HeartbeatResponse { id } => {
            let mut s = "{\"method\":\"public/respond-heartbeat\",\"id\":".to_owned();
            let digits = u128_to_dec(*id as u128);
            s.append(digits.as_str());
            s.append("}");
            proof {
                assert(s@ =~= request_json(*r));
            }
            s
        },
        Request::Subscribe { id, params, nonce } => {
            let mut s = "{\"method\":\"subscribe\",\"id\":".to_owned();
            let digits = u128_to_dec(*id as u128);
            s.append(digits.as_str());
            s.append(",\"params\":");
            s.append(params.as_str());
            s.append(",\"nonce\":");
            let nonce_digits = u128_to_dec(*nonce);
            s.append(nonce_digits.as_str());
            s.append("}");
            proof {
                assert(s@ =~= request_json(*r));
            }
            s
        },
        Request::Unsubscribe { id, params, nonce } => {
            let mut s = "{\"method\":\"unsubscribe\",\"id\":".to_owned();
            let digits = u128_to_dec(*id as u128);
            s.append(digits.as_str());
            s.append(",\"params\":");
            let p = params.to_json();
            s.append(p.as_str());
            s.append(",\"nonce\":");
            let nonce_digits = u128_to_dec(*nonce);
            s.append(nonce_digits.as_str());
            s.append("}");
            proof {
                assert(s@ =~= request_json(*r));
            }
            s
        },
        Request::Auth { id, api_key, sig, nonce } => {
            let mut s = "{\"method\":\"public/auth\",\"id\":".to_owned();
            let digits = u128_to_dec(*id as u128);
            s.append(digits.as_str());
            s.append(",\"api_key\":");
            let key_quoted = json_quote(api_key.as_str());
            s.append(key_quoted.as_str());
            s.append(",\"sig\":");
            let sig_quoted = json_quote(sig.as_str());
            s.append(sig_quoted.as_str());
            s.append(",\"nonce\":");
            let nonce_digits = u128_to_dec(*nonce);
            s.append(nonce_digits.as_str());
            s.append("}");
            proof {
                assert(s@ =~= request_json(*r));
            }
            s
        },
    }
}

} // verus!
