//! Tests for the session state machine, the nonce fallback, the signature
//! and the channel-name builders.

use cryptoclient::auth::sign;
use cryptoclient::book::book;
use cryptoclient::candlestick::{candlestick, TimeFrame};
use cryptoclient::client_core::ClientCore;
use cryptoclient::clock::{nonce, nonce_from_clock};
use cryptoclient::error::CryptoError;

#[test]
fn id_increments_only_on_successful_send() {
    let mut core = ClientCore::new();
    core.on_connected();
    assert_eq!(core.next_id, 1);
    core.record_send(true);
    assert_eq!(core.next_id, 2);
    core.record_send(false);
    assert_eq!(core.next_id, 2);
    core.record_send(true);
    assert_eq!(core.next_id, 3);
}

#[test]
fn subscribe_before_connect_fails_without_touching_id() {
    let core = ClientCore::new();
    let r = core.subscribe_request("{\"channels\":[]}", 5);
    assert!(matches!(r, Err(CryptoError::NotConnectedError)));
    assert_eq!(core.next_id, 1);
    let r = core.unsubscribe_request(vec![String::from("c")], 5);
    assert!(matches!(r, Err(CryptoError::NotConnectedError)));
    let r = core.auth_request("k", "s", 5);
    assert!(matches!(r, Err(CryptoError::NotConnectedError)));
    assert_eq!(core.next_id, 1);
}

#[test]
fn subscribe_after_connect_carries_current_id() {
    let mut core = ClientCore::new();
    core.on_connected();
    core.record_send(true);
    let text = core.subscribe_request("{\"channels\":[\"x\"]}", 77).unwrap();
    assert_eq!(
        text,
        "{\"method\":\"subscribe\",\"id\":2,\"params\":{\"channels\":[\"x\"]},\"nonce\":77}"
    );
}

#[test]
fn disconnect_makes_actions_fail_fast() {
    let mut core = ClientCore::new();
    core.on_connected();
    core.on_disconnected();
    let r = core.subscribe_request("{}", 0);
    assert!(matches!(r, Err(CryptoError::NotConnectedError)));
}

#[test]
fn builder_urls_are_kept() {
    let core = ClientCore::new();
    assert_eq!(core.market_url, "wss://stream.crypto.com/v2/market");
    assert_eq!(core.user_url, "wss://stream.crypto.com/v2/user");
    let core = core
        .with_market_url(String::from("ws://localhost:1/market"))
        .with_user_url(String::from("ws://localhost:1/user"));
    assert_eq!(core.market_url, "ws://localhost:1/market");
    assert_eq!(core.user_url, "ws://localhost:1/user");
    assert_eq!(core.next_id, 1);
    assert!(!core.connected);
}

#[test]
fn nonce_falls_back_to_zero_on_clock_failure() {
    assert_eq!(nonce_from_clock(None), 0);
    assert_eq!(nonce_from_clock(Some(1587846358253)), 1587846358253);
    // The live clock reads after the epoch.
    assert!(nonce() > 1_600_000_000_000);
}

#[test]
fn auth_signature_matches_reference_vector() {
    let sig = sign("test_api_key", "test_secret", 7, 1587846358253).unwrap();
    assert_eq!(
        sig,
        "fc189a61cdef09840e183d826dd41c12647ca1021ca9eb17c19f7c32a712ae80"
    );
}

#[test]
fn sign_accepts_any_secret_length() {
    // The keyed hash accepts secrets of every length, the empty one
    // included; signing never fails.
    assert!(sign("k", "", 1, 0).is_ok());
    let long = "x".repeat(200);
    assert!(sign("k", &long, 1, 0).is_ok());
}

#[test]
fn auth_request_embeds_signature() {
    let mut core = ClientCore::new();
    core.on_connected();
    let text = core.auth_request("test_api_key", "test_secret", 1587846358253).unwrap();
    // id is 1 on a fresh client; signature over a different id would differ.
    let sig = sign("test_api_key", "test_secret", 1, 1587846358253).unwrap();
    let expected = format!(
        "{{\"method\":\"public/auth\",\"id\":1,\"api_key\":\"test_api_key\",\"sig\":\"{}\",\"nonce\":1587846358253}}",
        sig
    );
    assert_eq!(text, expected);
}

#[test]
fn book_channel_name() {
    assert_eq!(book("ETH_CRO", 150), "book.ETH_CRO.150");
    assert_eq!(book("BTC_USDT", 10), "book.BTC_USDT.10");
}

#[test]
fn candlestick_channel_name() {
    assert_eq!(candlestick(TimeFrame::OneMinute, "ETH_CRO"), "candlestick.1m.ETH_CRO");
    assert_eq!(candlestick(TimeFrame::OneMonth, "BTC_USDT"), "candlestick.1M.BTC_USDT");
}

#[test]
fn time_frame_codes() {
    assert_eq!(TimeFrame::OneMinute.code(), "1m");
    assert_eq!(TimeFrame::FiveMinutes.code(), "5m");
    assert_eq!(TimeFrame::FiteenMinutes.code(), "15m");
    assert_eq!(TimeFrame::ThirtyMinutes.code(), "30m");
    assert_eq!(TimeFrame::OneHour.code(), "1h");
    assert_eq!(TimeFrame::FourHours.code(), "4h");
    assert_eq!(TimeFrame::SixHours.code(), "6h");
    assert_eq!(TimeFrame::TwelveHours.code(), "12h");
    assert_eq!(TimeFrame::OneDay.code(), "1D");
    assert_eq!(TimeFrame::OneWeek.code(), "7D");
    assert_eq!(TimeFrame::TwoWeeks.code(), "14D");
    assert_eq!(TimeFrame::OneMonth.code(), "1M");
}
