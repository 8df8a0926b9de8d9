//! Scenario tests for the receive-loop dispatcher: one frame in, one
//! prescribed action out.

use cryptoclient::dispatch::{dispatch_frame, process_events, DispatchStep, ReadEvent};
use cryptoclient::error::CryptoError;
use cryptoclient::message::{CloseInfo, Frame, SubscribeResult};

fn text_frame(s: &str) -> Frame {
    Frame::Text(String::from(s))
}

#[test]
fn heartbeat_request_produces_one_reply_and_no_callback() {
    let step = dispatch_frame(text_frame("{\"method\":\"public/heartbeat\",\"id\":42}"));
    match step {
        DispatchStep::SendText(t) => {
            assert_eq!(t, "{\"method\":\"public/respond-heartbeat\",\"id\":42}");
        }
        _ => panic!("expected a heartbeat reply and nothing else"),
    }
}

#[test]
fn subscription_response_with_result_notifies_ok() {
    let step = dispatch_frame(text_frame(
        "{\"method\":\"subscribe\",\"id\":1,\"code\":0,\"channel\":\"book\",\"result\":{\"data\":[1,2]}}",
    ));
    match step {
        DispatchStep::Notify(Ok(SubscribeResult::Subscription(v))) => {
            let expected =
                serde_json::from_str::<serde_json::Value>("{\"data\":[1,2]}").unwrap();
            assert_eq!(v, expected);
        }
        _ => panic!("expected the opaque result to be forwarded as Ok"),
    }
}

#[test]
fn subscription_rejection_notifies_subscription_error() {
    let step = dispatch_frame(text_frame(
        "{\"method\":\"subscribe\",\"id\":5,\"code\":3,\"message\":\"Invalid\",\"channel\":\"book\"}",
    ));
    match step {
        DispatchStep::Notify(Err(CryptoError::SubscriptionError { id, code, message, channel })) => {
            assert_eq!(id, 5);
            assert_eq!(code, 3);
            assert_eq!(message.as_deref(), Some("Invalid"));
            assert_eq!(channel.as_deref(), Some("book"));
        }
        _ => panic!("expected a subscription error"),
    }
}

#[test]
fn subscription_ack_without_result_is_ignored() {
    let step = dispatch_frame(text_frame("{\"method\":\"subscribe\",\"id\":5,\"code\":0}"));
    assert!(matches!(step, DispatchStep::Ignore));
}

#[test]
fn unsubscription_response_notifies_success_flag() {
    let step = dispatch_frame(text_frame("{\"method\":\"unsubscribe\",\"id\":6,\"code\":0}"));
    match step {
        DispatchStep::Notify(Ok(SubscribeResult::UnsubscriptionResult { success })) => {
            assert!(success);
        }
        _ => panic!("expected an unsubscription result"),
    }
    let step = dispatch_frame(text_frame("{\"method\":\"unsubscribe\",\"id\":6,\"code\":7}"));
    match step {
        DispatchStep::Notify(Ok(SubscribeResult::UnsubscriptionResult { success })) => {
            assert!(!success);
        }
        _ => panic!("expected an unsubscription result"),
    }
}

#[test]
fn auth_response_notifies_success_flag() {
    let step = dispatch_frame(text_frame("{\"method\":\"public/auth\",\"id\":2,\"code\":0}"));
    match step {
        DispatchStep::Notify(Ok(SubscribeResult::AuthResult { success })) => assert!(success),
        _ => panic!("expected an auth result"),
    }
    let step = dispatch_frame(text_frame("{\"method\":\"public/auth\",\"id\":2,\"code\":10007}"));
    match step {
        DispatchStep::Notify(Ok(SubscribeResult::AuthResult { success })) => assert!(!success),
        _ => panic!("expected an auth result"),
    }
}

#[test]
fn malformed_json_notifies_decode_error_and_loop_continues() {
    let step = dispatch_frame(text_frame("{oops"));
    assert!(matches!(step, DispatchStep::Notify(Err(CryptoError::SerdeError(_)))));
    // The loop is not stopped by a decode failure: the next frame is
    // classified as usual.
    let step = dispatch_frame(text_frame("{\"method\":\"public/heartbeat\",\"id\":1}"));
    assert!(matches!(step, DispatchStep::SendText(_)));
}

#[test]
fn unknown_shape_notifies_decode_error() {
    let step = dispatch_frame(text_frame("{\"foo\":1}"));
    assert!(matches!(step, DispatchStep::Notify(Err(CryptoError::SerdeError(_)))));
    let step = dispatch_frame(text_frame("{\"method\":\"public/heartbeat\"}"));
    assert!(matches!(step, DispatchStep::Notify(Err(CryptoError::SerdeError(_)))));
}

#[test]
fn ping_is_answered_with_pong_of_same_payload() {
    let step = dispatch_frame(Frame::Ping(vec![1, 2, 3]));
    match step {
        DispatchStep::SendPong(p) => assert_eq!(p, vec![1, 2, 3]),
        _ => panic!("expected a pong"),
    }
}

#[test]
fn pong_is_ignored() {
    let step = dispatch_frame(Frame::Pong(vec![9]));
    assert!(matches!(step, DispatchStep::Ignore));
}

#[test]
fn close_frame_notifies_close_error_and_stops() {
    let step = dispatch_frame(Frame::Close(Some(CloseInfo {
        code: 1000,
        reason: String::from("bye"),
    })));
    match step {
        DispatchStep::Stop(CryptoError::CloseError { frame }) => {
            let info = frame.unwrap();
            assert_eq!(info.code, 1000);
            assert_eq!(info.reason, "bye");
        }
        _ => panic!("expected the loop to stop with a close error"),
    }
}

#[test]
fn close_mid_stream_stops_the_run_after_one_close_notification() {
    let run = process_events(vec![
        ReadEvent::Frame(text_frame("{\"method\":\"public/heartbeat\",\"id\":1}")),
        ReadEvent::Frame(Frame::Close(None)),
        ReadEvent::Frame(text_frame("{\"method\":\"public/heartbeat\",\"id\":2}")),
    ]);
    // The heartbeat is answered, the close is dispatched exactly once, and
    // nothing after the close is processed.
    assert_eq!(run.actions.len(), 2);
    assert!(matches!(run.actions[0], DispatchStep::SendText(_)));
    assert!(matches!(
        run.actions[1],
        DispatchStep::Stop(CryptoError::CloseError { frame: None })
    ));
    assert!(matches!(
        run.outcome,
        Err(CryptoError::CloseError { frame: None })
    ));
}

#[test]
fn read_error_is_reported_and_the_run_goes_on() {
    let run = process_events(vec![
        ReadEvent::ReadError(String::from("connection reset")),
        ReadEvent::Frame(text_frame("{\"method\":\"public/heartbeat\",\"id\":3}")),
    ]);
    assert_eq!(run.actions.len(), 2);
    assert!(matches!(
        &run.actions[0],
        DispatchStep::Notify(Err(CryptoError::TungsteniteErrorString(s))) if s == "connection reset"
    ));
    assert!(matches!(run.actions[1], DispatchStep::SendText(_)));
    // The read error is the run's terminal result, in the typed variant.
    assert!(matches!(
        &run.outcome,
        Err(CryptoError::TungsteniteError(s)) if s == "connection reset"
    ));
}

#[test]
fn clean_run_ends_ok() {
    let run = process_events(vec![
        ReadEvent::Frame(Frame::Ping(vec![1])),
        ReadEvent::Frame(Frame::Pong(vec![1])),
    ]);
    assert_eq!(run.actions.len(), 2);
    assert!(matches!(run.outcome, Ok(())));
}

#[test]
fn binary_frame_notifies_unexpected_message() {
    let step = dispatch_frame(Frame::Binary(vec![0xde, 0xad]));
    match step {
        DispatchStep::Notify(Err(CryptoError::UnexpectedMessageError { message })) => {
            assert!(matches!(message, Frame::Binary(b) if b == vec![0xde, 0xad]));
        }
        _ => panic!("expected an unexpected-message error"),
    }
}
