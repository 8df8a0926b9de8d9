//! Wire-text tests for the outbound request encoder.

use cryptoclient::numfmt::{i64_to_dec, u128_to_dec};
use cryptoclient::subscription::{encode_request, Request, SubscribeParams, UnsubscribeParams};

#[test]
fn check_subscribe_structure() {
    let hb = Request::Subscribe {
        id: 22,
        nonce: 18271187217812782,
        params: String::from("{\"channels\":[\"channel1\",\"channel2\"]}"),
    };
    let text = encode_request(&hb);
    assert_eq!(text, "{\"method\":\"subscribe\",\"id\":22,\"params\":{\"channels\":[\"channel1\",\"channel2\"]},\"nonce\":18271187217812782}");
}

#[test]
fn check_heartbeat_structure() {
    let hb = Request::HeartbeatResponse { id: 19 };
    let text = encode_request(&hb);
    assert_eq!(text, "{\"method\":\"public/respond-heartbeat\",\"id\":19}");
}

#[test]
fn unsubscribe_wire_text() {
    let req = Request::Unsubscribe {
        id: 3,
        params: UnsubscribeParams {
            channels: vec![String::from("book.ETH_CRO.150"), String::from("ticker.ETH_CRO")],
        },
        nonce: 1587846358253,
    };
    let text = encode_request(&req);
    assert_eq!(
        text,
        "{\"method\":\"unsubscribe\",\"id\":3,\"params\":{\"channels\":[\"book.ETH_CRO.150\",\"ticker.ETH_CRO\"]},\"nonce\":1587846358253}"
    );
}

#[test]
fn unsubscribe_empty_channel_list() {
    let req = Request::Unsubscribe {
        id: 1,
        params: UnsubscribeParams { channels: vec![] },
        nonce: 0,
    };
    let text = encode_request(&req);
    assert_eq!(
        text,
        "{\"method\":\"unsubscribe\",\"id\":1,\"params\":{\"channels\":[]},\"nonce\":0}"
    );
}

#[test]
fn subscribe_params_to_json_matches_serde() {
    let params = SubscribeParams {
        channels: vec![String::from("channel1"), String::from("channel2")],
    };
    assert_eq!(params.to_json(), "{\"channels\":[\"channel1\",\"channel2\"]}");
}

#[test]
fn channel_names_are_escaped_like_serde() {
    // A quote, a backslash, a newline and a unit separator in a channel
    // name must come out exactly as serde_json would write them.
    let raw = String::from("a\"b\\c\nd\u{1f}e");
    let params = UnsubscribeParams { channels: vec![raw.clone()] };
    let mine = params.to_json();
    let reference = format!(
        "{{\"channels\":{}}}",
        serde_json::to_string(&vec![raw]).unwrap()
    );
    assert_eq!(mine, reference);
    assert_eq!(mine, "{\"channels\":[\"a\\\"b\\\\c\\nd\\u001fe\"]}");
}

#[test]
fn auth_wire_text() {
    let req = Request::Auth {
        id: 12,
        api_key: String::from("key"),
        sig: String::from("00ff"),
        nonce: 9,
    };
    let text = encode_request(&req);
    assert_eq!(
        text,
        "{\"method\":\"public/auth\",\"id\":12,\"api_key\":\"key\",\"sig\":\"00ff\",\"nonce\":9}"
    );
}

#[test]
fn decimal_rendering() {
    assert_eq!(u128_to_dec(0), "0");
    assert_eq!(u128_to_dec(7), "7");
    assert_eq!(u128_to_dec(340282366920938463463374607431768211455), "340282366920938463463374607431768211455");
    assert_eq!(i64_to_dec(-150), "-150");
    assert_eq!(i64_to_dec(150), "150");
    assert_eq!(i64_to_dec(i64::MIN), "-9223372036854775808");
}
