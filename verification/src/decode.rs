//! Decoding inbound text frames: serde_json parses the document and reads
//! its fields, each tied to a named function of the text, and the verified
//! classification below turns those fields into a protocol message.

use serde_json::Value;
use vstd::prelude::*;

use crate::error::CryptoError;
use crate::jsonvalue::{json_error_text, json_text_ok};
use crate::message::Message;
use crate::strops::str_eq;

verus! {

/// The `method` field of the parsed document, when it is a string.
pub uninterp spec fn parsed_method(s: Seq<char>) -> Option<Seq<char>>;

/// The `id` field of the parsed document, as an unsigned integer.
pub uninterp spec fn parsed_id_u64(s: Seq<char>) -> Option<u64>;

/// The `id` field of the parsed document, as a signed integer.
pub uninterp spec fn parsed_id_i64(s: Seq<char>) -> Option<i64>;

/// The `code` field of the parsed document, as an unsigned integer.
pub uninterp spec fn parsed_code(s: Seq<char>) -> Option<u64>;

/// Whether the parsed document has a `result` field.
pub uninterp spec fn parsed_has_result(s: Seq<char>) -> bool;

/// The `channel` field of the parsed document, when it is a string.
pub uninterp spec fn parsed_channel(s: Seq<char>) -> Option<Seq<char>>;

/// The `message` field of the parsed document, when it is a string.
pub uninterp spec fn parsed_message(s: Seq<char>) -> Option<Seq<char>>;

/// The contents of an optional string.
pub open spec fn opt_view(o: Option<String>) -> Option<Seq<char>> {
    match o {
        Some(s) => Some(s@),
        None => None,
    }
}

/// The fields read out of a parsed inbound document, as plain values.
/// A field is None when the document lacks it or it has the wrong type.
pub struct RawFields {
    /// The `method` field, which discriminates the message kind.
    pub method: Option<String>,
    /// The `id` field as an unsigned integer.
    pub id_unsigned: Option<u64>,
    /// The `id` field as a signed integer.
    pub id_signed: Option<i64>,
    /// The `code` field.
    pub code: Option<u64>,
    /// The `result` field, kept opaque.
    pub result: Option<serde_json::Value>,
    /// The `channel` field.
    pub channel: Option<String>,
    /// The `message` field.
    pub message: Option<String>,
}

/// Relies on serde_json: from_str::<Value> parses the document (success is
/// a function of the text alone), and Value::get with as_str, as_u64,
/// as_i64 and Clone read the fields, each a function of the text alone.
#[verifier::external_body]
fn parse_fields(text: &str) -> (r: Result<RawFields, serde_json::Error>)
    ensures
        r is Ok <==> json_text_ok(text@),
        r matches Ok(f) ==> {
            &&& opt_view(f.method) == parsed_method(text@)
            &&& f.id_unsigned == parsed_id_u64(text@)
            &&& f.id_signed == parsed_id_i64(text@)
            &&& f.code == parsed_code(text@)
            &&& (f.result is Some <==> parsed_has_result(text@))
            &&& opt_view(f.channel) == parsed_channel(text@)
            &&& opt_view(f.message) == parsed_message(text@)
        },
{
    let v: Value = serde_json::from_str(text)?;
    let method = v.get("method").and_then(Value::as_str).map(str::to_owned);
    let channel = v.get("channel").and_then(Value::as_str).map(str::to_owned);
    let message = v.get("message").and_then(Value::as_str).map(str::to_owned);
    let id_unsigned = v.get("id").and_then(Value::as_u64);
    let id_signed = v.get("id").and_then(Value::as_i64);
    let code = v.get("code").and_then(Value::as_u64);
    let result = v.get("result").cloned();
    Ok(RawFields { method, id_unsigned, id_signed, code, result, channel, message })
}

/// The four method names are pairwise distinct.
pub proof fn lemma_method_names_distinct()
    ensures
        "public/heartbeat"@ != "subscribe"@,
        "public/heartbeat"@ != "unsubscribe"@,
        "public/heartbeat"@ != "public/auth"@,
        "subscribe"@ != "unsubscribe"@,
        "subscribe"@ != "public/auth"@,
        "unsubscribe"@ != "public/auth"@,
{
    reveal_strlit("public/heartbeat");
    reveal_strlit("subscribe");
    reveal_strlit("unsubscribe");
    reveal_strlit("public/auth");
    assert("public/heartbeat"@.len() == 16);
    assert("subscribe"@.len() == 9);
    assert("unsubscribe"@.len() == 11);
    assert("public/auth"@.len() == 11);
    assert("unsubscribe"@[0] != "public/auth"@[0]);
}

/// Whether the document's method is the given name.
pub open spec fn method_is(text: Seq<char>, name: Seq<char>) -> bool {
    parsed_method(text) matches Some(m) && m == name
}

/// Whether decoding `text` fails: the text is not well-formed JSON, it has
/// no string `method` field, its method is unknown, or a field the shape
/// needs is missing.
pub open spec fn text_undecodable(text: Seq<char>) -> bool {
    ||| !json_text_ok(text)
    ||| parsed_method(text) is None
    ||| (method_is(text, "public/heartbeat"@) && parsed_id_u64(text) is None)
    ||| ((method_is(text, "subscribe"@) || method_is(text, "unsubscribe"@) || method_is(
        text,
        "public/auth"@,
    )) && (parsed_id_i64(text) is None || parsed_code(text) is None))
    ||| (parsed_method(text) matches Some(m) && m != "public/heartbeat"@ && m != "subscribe"@
        && m != "unsubscribe"@ && m != "public/auth"@)
}

/// What decoding `text` yields: a decode error exactly on the undecodable
/// texts, and otherwise the message the named fields spell.
pub open spec fn decode_result_is(text: Seq<char>, r: Result<Message, CryptoError>) -> bool {
    &&& (r matches Err(e) ==> e is SerdeError)
    &&& (text_undecodable(text) <==> r is Err)
    &&& (json_text_ok(text) ==> {
        &&& (method_is(text, "public/heartbeat"@) ==> (parsed_id_u64(text) matches Some(n) ==> r
            == Ok::<Message, CryptoError>(Message::HeartbeatRequest { id: n })))
        &&& (method_is(text, "subscribe"@) ==> (parsed_id_i64(text) matches Some(i) ==> (
        parsed_code(text) matches Some(c) ==> (r matches Ok(m) && m matches
        Message::SubscriptionResponse {
            result,
            id,
            code,
            channel,
            message,
        } && id == i && code == c && (result is Some <==> parsed_has_result(text)) && opt_view(
            channel,
        ) == parsed_channel(text) && opt_view(message) == parsed_message(text)))))
        &&& (method_is(text, "unsubscribe"@) ==> (parsed_id_i64(text) matches Some(i) ==> (
        parsed_code(text) matches Some(c) ==> r == Ok::<Message, CryptoError>(
            Message::UnsubscriptionResponse { id: i, code: c },
        ))))
        &&& (method_is(text, "public/auth"@) ==> (parsed_id_i64(text) matches Some(i) ==> (
        parsed_code(text) matches Some(c) ==> r == Ok::<Message, CryptoError>(
            Message::AuthResponse { id: i, code: c },
        ))))
    })
}

/// A decode failure for a document that parses but has no known shape.
fn shape_error() -> (e: CryptoError)
    ensures
        e is SerdeError,
{
    CryptoError::SerdeError("unrecognized inbound message".to_owned())
}

/// Turns the fields of a parsed document into the protocol message they
/// spell, or a decode error when no known shape fits.
pub fn classify(fields: RawFields) -> (r: Result<Message, CryptoError>)
    ensures
        fields.method is None ==> (r matches Err(e) && e is SerdeError),
        (fields.method matches Some(m) && m@ == "public/heartbeat"@) ==> match fields.id_unsigned {
            Some(n) => r == Ok::<Message, CryptoError>(Message::HeartbeatRequest { id: n }),
            None => r matches Err(e) && e is SerdeError,
        },
        (fields.method matches Some(m) && m@ == "subscribe"@) ==> match (
            fields.id_signed,
            fields.code,
        ) {
            (Some(i), Some(c)) => r == Ok::<Message, CryptoError>(
                Message::SubscriptionResponse {
                    result: fields.result,
                    id: i,
                    code: c,
                    channel: fields.channel,
                    message: fields.message,
                },
            ),
            _ => r matches Err(e) && e is SerdeError,
        },
        (fields.method matches Some(m) && m@ == "unsubscribe"@) ==> match (
            fields.id_signed,
            fields.code,
        ) {
            (Some(i), Some(c)) => r == Ok::<Message, CryptoError>(
                Message::UnsubscriptionResponse { id: i, code: c },
            ),
            _ => r matches Err(e) && e is SerdeError,
        },
        (fields.method matches Some(m) && m@ == "public/auth"@) ==> match (
            fields.id_signed,
            fields.code,
        ) {
            (Some(i), Some(c)) => r == Ok::<Message, CryptoError>(
                Message::AuthResponse { id: i, code: c },
            ),
            _ => r matches Err(e) && e is SerdeError,
        },
        (fields.method matches Some(m) && m@ != "public/heartbeat"@ && m@ != "subscribe"@ && m@
            != "unsubscribe"@ && m@ != "public/auth"@) ==> (r matches Err(e) && e is SerdeError),
{
    proof {
        lemma_method_names_distinct();
    }
    match fields.method {
        None => Err(shape_error()),
        Some(m) => {
            if str_eq(m.as_str(), "public/heartbeat") {
                match fields.id_unsigned {
                    Some(n) => Ok(Message::HeartbeatRequest { id: n }),
                    None => Err(shape_error()),
                }
            } else if str_eq(m.as_str(), "subscribe") {
                match (fields.id_signed, fields.code) {
                    (Some(i), Some(c)) => Ok(
                        Message::SubscriptionResponse {
                            result: fields.result,
                            id: i,
                            code: c,
                            channel: fields.channel,
                            message: fields.message,
                        },
                    ),
                    _ => Err(shape_error()),
                }
            } else if str_eq(m.as_str(), "unsubscribe") {
                match (fields.id_signed, fields.code) {
                    (Some(i), Some(c)) => Ok(Message::UnsubscriptionResponse { id: i, code: c }),
                    _ => Err(shape_error()),
                }
            } else if str_eq(m.as_str(), "public/auth") {
                match (fields.id_signed, fields.code) {
                    (Some(i), Some(c)) => Ok(Message::AuthResponse { id: i, code: c }),
                    _ => Err(shape_error()),
                }
            } else {
                Err(shape_error())
            }
        },
    }
}

/// Decodes one inbound text payload: a decode error exactly on the
/// undecodable texts, and otherwise the message the text spells.
pub fn decode_message(text: &str) -> (r: Result<Message, CryptoError>)
    ensures
        decode_result_is(text@, r),
{
    proof {
        lemma_method_names_distinct();
    }
    match parse_fields(text) {
        Err(e) => Err(CryptoError::SerdeError(json_error_text(&e))),
        Ok(f) => classify(f),
    }
}

} // verus!
