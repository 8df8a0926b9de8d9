//! Frame classification for the background receive loop: for every inbound
//! frame, exactly what must be sent back, what must be handed to the
//! caller's callback, and whether the loop ends.

use vstd::prelude::*;

use crate::decode::{
    decode_message, lemma_method_names_distinct, method_is, opt_view, parsed_channel,
    parsed_code, parsed_has_result, parsed_id_i64, parsed_id_u64, parsed_message,
    text_undecodable,
};
use crate::error::CryptoError;
use crate::jsonvalue::json_text_ok;
use crate::message::{CloseInfo, Frame, Message, SubscribeResult};
use crate::subscription::{encode_request, heartbeat_response_json, Request};

verus! {

/// What the loop must do with one inbound frame.
pub enum DispatchStep {
    /// Send this text over the shared send handle; no callback invocation.
    SendText(String),
    /// Answer a ping: send a pong frame with this payload.
    SendPong(Vec<u8>),
    /// Hand this outcome to the callback, then keep reading.
    Notify(Result<SubscribeResult, CryptoError>),
    /// Hand this error to the callback, then end the loop with it as the
    /// loop's terminal result.
    Stop(CryptoError),
    /// Nothing to do for this frame.
    Ignore,
}

/// What `dispatch_message` promises for one decoded protocol message.
pub open spec fn message_step(m: Message, r: DispatchStep) -> bool {
    &&& (m matches Message::HeartbeatRequest { id } ==> (r matches DispatchStep::SendText(t)
        && t@ == heartbeat_response_json(id)))
    &&& (m matches Message::SubscriptionResponse { result: Some(v), .. } ==> r
        == DispatchStep::Notify(
        Ok(SubscribeResult::Subscription(v)),
    ))
    &&& (m matches Message::SubscriptionResponse { result: None, id, code, channel, message }
        ==> (if code != 0 {
        r == DispatchStep::Notify(
            Err(CryptoError::SubscriptionError { id, code, message, channel }),
        )
    } else {
        r == DispatchStep::Ignore
    }))
    &&& (m matches Message::UnsubscriptionResponse { id, code } ==> r == DispatchStep::Notify(
        Ok(SubscribeResult::UnsubscriptionResult { success: code == 0 }),
    ))
    &&& (m matches Message::AuthResponse { id, code } ==> r == DispatchStep::Notify(
        Ok(SubscribeResult::AuthResult { success: code == 0 }),
    ))
}

/// A step that reports a decode failure to the callback and keeps reading.
pub open spec fn decode_failure_step(r: DispatchStep) -> bool {
    r matches DispatchStep::Notify(n) && n matches Err(e) && e is SerdeError
}

/// A notify of the server's rejection of a subscription, carrying the
/// id, code, message and channel the text spells.
pub open spec fn subscription_error_step(text: Seq<char>, i: i64, c: u64, r: DispatchStep) -> bool {
    r matches DispatchStep::Notify(n) && n matches Err(e) && e matches
        CryptoError::SubscriptionError { id, code, message, channel } && id == i && code == c
        && opt_view(message) == parsed_message(text) && opt_view(channel) == parsed_channel(text)
}

/// What `handle_text` promises for one text payload: a decode-failure
/// notify exactly on the undecodable texts, and otherwise the action the
/// decoded message prescribes, in terms of the text's named fields.
pub open spec fn text_step(text: Seq<char>, r: DispatchStep) -> bool {
    &&& (text_undecodable(text) <==> decode_failure_step(r))
    &&& (json_text_ok(text) ==> {
        &&& (method_is(text, "public/heartbeat"@) ==> (parsed_id_u64(text) matches Some(n) ==> (
        r matches DispatchStep::SendText(t) && t@ == heartbeat_response_json(n))))
        &&& (method_is(text, "subscribe"@) ==> (parsed_id_i64(text) matches Some(i) ==> (
        parsed_code(text) matches Some(c) ==> (if parsed_has_result(text) {
            r matches DispatchStep::Notify(n) && n matches Ok(s) && s is Subscription
        } else if c != 0 {
            subscription_error_step(text, i, c, r)
        } else {
            r == DispatchStep::Ignore
        }))))
        &&& (method_is(text, "unsubscribe"@) ==> (parsed_id_i64(text) matches Some(i) ==> (
        parsed_code(text) matches Some(c) ==> r == DispatchStep::Notify(
            Ok(SubscribeResult::UnsubscriptionResult { success: c == 0 }),
        ))))
        &&& (method_is(text, "public/auth"@) ==> (parsed_id_i64(text) matches Some(i) ==> (
        parsed_code(text) matches Some(c) ==> r == DispatchStep::Notify(
            Ok(SubscribeResult::AuthResult { success: c == 0 }),
        ))))
    })
}

/// Turns one decoded protocol message into the loop's next action.
pub fn dispatch_message(m: Message) -> (r: DispatchStep)
    ensures
        message_step(m, r),
{
    match m {
        Message::HeartbeatRequest { id } => {
            let text = encode_request(&Request::HeartbeatResponse { id });
            DispatchStep::SendText(text)
        },
        Message::SubscriptionResponse { result, id, code, channel, message } => {
            match result {
                Some(v) => DispatchStep::Notify(Ok(SubscribeResult::Subscription(v))),
                None => {
                    if code != 0 {
                        DispatchStep::Notify(
                            Err(CryptoError::SubscriptionError { id, code, message, channel }),
                        )
                    } else {
                        DispatchStep::Ignore
                    }
                },
            }
        },
        Message::UnsubscriptionResponse { id: _, code } => {
            DispatchStep::Notify(Ok(SubscribeResult::UnsubscriptionResult { success: code == 0 }))
        },
        Message::AuthResponse { id: _, code } => {
            DispatchStep::Notify(Ok(SubscribeResult::AuthResult { success: code == 0 }))
        },
    }
}

/// Decodes one text payload and turns it into the loop's next action; a
/// payload that does not decode is reported to the callback and the loop
/// keeps reading.
pub fn handle_text(text: &str) -> (r: DispatchStep)
    ensures
        text_step(text@, r),
{
    proof {
        lemma_method_names_distinct();
    }
    match decode_message(text) {
        Ok(m) => {
            let ghost gm = m;
            let r = dispatch_message(m);
            proof {
                assert(message_step(gm, r));
            }
            r
        },
        Err(e) => DispatchStep::Notify(Err(e)),
    }
}

/// What `dispatch_frame` promises for one inbound frame.
pub open spec fn frame_step(f: Frame, r: DispatchStep) -> bool {
    &&& (f matches Frame::Text(t) ==> text_step(t@, r))
    &&& (f matches Frame::Binary(b) ==> r == DispatchStep::Notify(
        Err(CryptoError::UnexpectedMessageError { message: Frame::Binary(b) }),
    ))
    &&& (f matches Frame::Ping(p) ==> r == DispatchStep::SendPong(p))
    &&& (f matches Frame::Pong(_) ==> r == DispatchStep::Ignore)
    &&& (f matches Frame::Close(ci) ==> r == DispatchStep::Stop(
        CryptoError::CloseError { frame: ci },
    ))
}

/// Classifies one inbound frame, exactly as the receive loop must act on
/// it.
pub fn dispatch_frame(f: Frame) -> (r: DispatchStep)
    ensures
        frame_step(f, r),
{
    match f {
        Frame::Text(t) => handle_text(t.as_str()),
        Frame::Binary(b) => DispatchStep::Notify(
            Err(CryptoError::UnexpectedMessageError { message: Frame::Binary(b) }),
        ),
        Frame::Ping(p) => DispatchStep::SendPong(p),
        Frame::Pong(_) => DispatchStep::Ignore,
        Frame::Close(ci) => DispatchStep::Stop(CryptoError::CloseError { frame: ci }),
    }
}

/// One observation of the receive loop: a frame, or a transport read
/// error.
pub enum ReadEvent {
    /// A frame was read.
    Frame(Frame),
    /// The read itself failed; the text of the transport error.
    ReadError(String),
}

/// Whether an event is a close frame, the one event that ends the loop.
pub open spec fn is_close(e: ReadEvent) -> bool {
    e matches ReadEvent::Frame(f) && f matches Frame::Close(_)
}

/// What the loop does with one event: frames go through the dispatcher; a
/// transport read error is reported to the callback as text and the loop
/// keeps reading.
pub open spec fn event_step(e: ReadEvent, r: DispatchStep) -> bool {
    match e {
        ReadEvent::Frame(f) => frame_step(f, r),
        ReadEvent::ReadError(s) => r == DispatchStep::Notify(
            Err(CryptoError::TungsteniteErrorString(s)),
        ),
    }
}

/// Turns one loop observation into the loop's next action.
pub fn dispatch_event(e: ReadEvent) -> (r: DispatchStep)
    ensures
        event_step(e, r),
{
    match e {
        ReadEvent::Frame(f) => dispatch_frame(f),
        ReadEvent::ReadError(s) => DispatchStep::Notify(
            Err(CryptoError::TungsteniteErrorString(s)),
        ),
    }
}

/// Two close payloads with the same contents.
pub open spec fn close_info_like(a: Option<CloseInfo>, b: Option<CloseInfo>) -> bool {
    match (a, b) {
        (Option::None, Option::None) => true,
        (Option::Some(x), Option::Some(y)) => x.code == y.code && x.reason@ == y.reason@,
        _ => false,
    }
}

/// Whether `out` is the terminal result owed after `events` when no close
/// frame is among them: the last transport read error, in the typed
/// variant, or Ok when every read succeeded.
pub open spec fn pending_outcome(events: Seq<ReadEvent>, out: Result<(), CryptoError>) -> bool
    decreases events.len(),
{
    if events.len() == 0 {
        out == Ok::<(), CryptoError>(())
    } else {
        match events.last() {
            ReadEvent::ReadError(s) => out matches Err(e) && e matches
                CryptoError::TungsteniteError(t) && t@ == s@,
            _ => pending_outcome(events.drop_last(), out),
        }
    }
}

/// Copies close metadata by contents.
fn copy_close_info(ci: &Option<CloseInfo>) -> (r: Option<CloseInfo>)
    ensures
        close_info_like(r, *ci),
{
    match ci {
        Option::None => Option::None,
        Option::Some(info) => Option::Some(
            CloseInfo { code: info.code, reason: info.reason.clone() },
        ),
    }
}

/// The record of a finite run of the receive loop: the actions taken, in
/// order, and the loop's terminal result.
pub struct LoopRun {
    /// One action per processed event, in arrival order.
    pub actions: Vec<DispatchStep>,
    /// The loop's terminal result, as `wait` would observe it.
    pub outcome: Result<(), CryptoError>,
}

/// Runs the receive loop's decisions over a finite run of events, as the
/// background task does over the live transport. Every event up to and
/// including the first close frame is dispatched in order and exactly
/// once; the close ends the run with its close error as the terminal
/// result; with no close, the run ends with the last read error, or Ok.
pub fn process_events(events: Vec<ReadEvent>) -> (run: LoopRun)
    ensures
        run.actions@.len() <= events@.len(),
        forall|i: int|
            0 <= i < run.actions@.len() ==> event_step(events@[i], #[trigger] run.actions@[i]),
        forall|i: int| 0 <= i < run.actions@.len() - 1 ==> !is_close(#[trigger] events@[i]),
        run.actions@.len() < events@.len() ==> (run.actions@.len() >= 1 && is_close(
            events@[run.actions@.len() - 1],
        )),
        run.actions@.len() >= 1 ==> (events@[run.actions@.len() - 1] matches ReadEvent::Frame(f)
            ==> (f matches Frame::Close(ci) ==> (run.outcome matches Err(e) && e matches
            CryptoError::CloseError { frame } && close_info_like(frame, ci)))),
        (run.actions@.len() == events@.len() && (events@.len() == 0 || !is_close(
            events@[events@.len() - 1],
        ))) ==> pending_outcome(events@, run.outcome),
{
    let ghost all = events@;
    let mut events = events;
    let mut actions: Vec<DispatchStep> = Vec::new();
    let mut outcome: Result<(), CryptoError> = Ok(());
    let mut closed = false;

    while events.len() > 0 && !closed
        invariant
            actions@.len() + events@.len() == all.len(),
            events@ =~= all.skip(actions@.len() as int),
            forall|i: int|
                0 <= i < actions@.len() ==> event_step(all[i], #[trigger] actions@[i]),
            !closed ==> (forall|i: int| 0 <= i < actions@.len() ==> !is_close(#[trigger] all[i])),
            !closed ==> pending_outcome(all.take(actions@.len() as int), outcome),
            closed ==> actions@.len() >= 1,
            closed ==> (forall|i: int|
                0 <= i < actions@.len() - 1 ==> !is_close(#[trigger] all[i])),
            closed ==> is_close(all[actions@.len() - 1]),
            closed ==> (all[actions@.len() - 1] matches ReadEvent::Frame(f) ==> (f matches
                Frame::Close(ci) ==> (outcome matches Err(e) && e matches
                CryptoError::CloseError { frame } && close_info_like(frame, ci)))),
        decreases events@.len(),
    {
        let ghost processed = actions@.len() as int;
        let e = events.remove(0);
        let ghost ge = e;
        proof {
            assert(ge == all[processed]);
            assert(events@ =~= all.skip(processed + 1));
        }
        let read_error_text: Option<String> = match &e {
            ReadEvent::ReadError(s) => Option::Some(s.clone()),
            _ => Option::None,
        };
        let close_meta: Option<Option<CloseInfo>> = match &e {
            ReadEvent::Frame(Frame::Close(ci)) => Option::Some(copy_close_info(ci)),
            _ => Option::None,
        };
        let step = dispatch_event(e);
        actions.push(step);
        match read_error_text {
            Option::Some(text) => {
                outcome = Err(CryptoError::TungsteniteError(text));
            },
            Option::None => {},
        }
        match close_meta {
            Option::Some(ci) => {
                outcome = Err(CryptoError::CloseError { frame: ci });
                closed = true;
            },
            Option::None => {},
        }
        proof {
            assert(all.take(processed + 1).drop_last() =~= all.take(processed));
            assert(all.take(processed + 1).last() == ge);
        }
    }
    proof {
        if actions@.len() == all.len() {
            assert(all.take(actions@.len() as int) =~= all);
        }
    }
    LoopRun { actions, outcome }
}

} // verus!
