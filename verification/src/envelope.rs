//! Inbound message classification.
//!
//! Every text frame carries one JSON object. An object with a numeric
//! `id` is the response to the command with that id — `result` on
//! success, `error` with code and message on failure. An object without
//! an `id` but with a `method` is an unsolicited event, optionally
//! stamped with the session it belongs to. Anything else is dropped.
//!
//! JSON itself is read through serde_json, in one trusted extraction
//! whose outcome is a named function of the text alone; the
//! classification rule on the extracted fields is verified exactly.

use vstd::prelude::*;

use crate::error::Error;

verus! {

#[verifier::external_type_specification]
#[verifier::external_body]
pub struct ExJsonValue(serde_json::Value);

/// The classification fields a parse extracts from one envelope text,
/// as spec values: the numeric id, the error triple, the method, the
/// presence of the two payload members, and the session id.
pub struct EnvelopeFields {
    /// The numeric `id`, when present.
    pub id: Option<u64>,
    /// Whether an `error` member is present.
    pub has_error: bool,
    /// `error.code`, when present as an integer.
    pub error_code: Option<i64>,
    /// `error.message`, when present as a string.
    pub error_message: Option<Seq<char>>,
    /// The `method` member, when present as a string.
    pub method: Option<Seq<char>>,
    /// Whether a `result` member is present.
    pub has_result: bool,
    /// Whether a `params` member is present.
    pub has_params: bool,
    /// The `sessionId` member, when present as a string.
    pub session_id: Option<Seq<char>>,
}

/// What serde_json's parse extracts from one envelope text: `None`
/// exactly when the text is not one well-formed JSON value; a function
/// of the text alone.
pub uninterp spec fn envelope_fields_of(text: Seq<char>) -> Option<EnvelopeFields>;

/// A JSON value holding the empty object; a property of the value
/// alone.
pub uninterp spec fn is_empty_json(v: serde_json::Value) -> bool;

/// Relies on `serde_json::Value::Object` over `serde_json::Map::new`:
/// the empty JSON object.
#[verifier::external_body]
pub fn json_empty_object() -> (r: serde_json::Value)
    ensures
        is_empty_json(r),
{
    serde_json::Value::Object(serde_json::Map::new())
}

/// The fields of one inbound JSON object that the classification rule
/// reads, pulled out as plain values. The payloads stay opaque.
pub struct RawMsg {
    /// The numeric `id`, when present.
    pub id: Option<u64>,
    /// Whether an `error` member is present.
    pub has_error: bool,
    /// `error.code`, when present as an integer.
    pub error_code: Option<i64>,
    /// `error.message`, when present as a string.
    pub error_message: Option<String>,
    /// The `method` member, when present as a string.
    pub method: Option<String>,
    /// The `result` payload, when present.
    pub result: Option<serde_json::Value>,
    /// The `params` payload, when present.
    pub params: Option<serde_json::Value>,
    /// The `sessionId` member, when present as a string.
    pub session_id: Option<String>,
}

/// One classified inbound message.
pub enum CdpMessage {
    /// The response to the command with this id.
    Response { id: u64, result: Result<serde_json::Value, Error> },
    /// An unsolicited event, stamped with a session id when it belongs
    /// to one attached target.
    Event { method: String, params: serde_json::Value, session_id: Option<String> },
}

/// Relies on `serde_json::from_str::<Value>` and the `Value` accessors
/// (`get`, `as_u64`, `as_i64`, `as_str`, derived `Clone`), in one step:
/// the extraction depends on the text alone, and the returned fields
/// are exactly the named ones — `None` exactly when the text is not
/// well-formed JSON. The two payload members are carried opaquely; only
/// their presence is reflected in the name.
#[verifier::external_body]
pub fn extract_envelope(text: &str) -> (r: Option<RawMsg>)
    ensures
        r is Some <==> envelope_fields_of(text@) is Some,
        r matches Some(raw) ==> (envelope_fields_of(text@) matches Some(f) && {
            &&& raw.id == f.id
            &&& raw.has_error == f.has_error
            &&& raw.error_code == f.error_code
            &&& (raw.error_message is Some <==> f.error_message is Some)
            &&& (raw.error_message matches Some(m) ==> f.error_message matches Some(fm) && m@
                == fm)
            &&& (raw.method is Some <==> f.method is Some)
            &&& (raw.method matches Some(m) ==> f.method matches Some(fm) && m@ == fm)
            &&& (raw.result is Some <==> f.has_result)
            &&& (raw.params is Some <==> f.has_params)
            &&& (raw.session_id is Some <==> f.session_id is Some)
            &&& (raw.session_id matches Some(s) ==> f.session_id matches Some(fs) && s@ == fs)
        }),
{
    let v: serde_json::Value = serde_json::from_str(text).ok()?;
    let e = v.get("error");
    let text_of = |x: Option<&serde_json::Value>| x.and_then(|m| m.as_str()).map(String::from);
    Some(RawMsg {
        id: v.get("id").and_then(|x| x.as_u64()),
        has_error: e.is_some(),
        error_code: e.and_then(|x| x.get("code")).and_then(|c| c.as_i64()),
        error_message: text_of(e.and_then(|x| x.get("message"))),
        method: text_of(v.get("method")),
        result: v.get("result").cloned(),
        params: v.get("params").cloned(),
        session_id: text_of(v.get("sessionId")),
    })
}

/// The classification rule: id present means response — a protocol error
/// when an `error` member is there (method, code, and message defaulted
/// when absent), otherwise success with the `result` payload (the empty
/// object when absent). No id but a method means event. Anything else is
/// nothing.
pub fn classify(raw: RawMsg) -> (r: Option<CdpMessage>)
    ensures
        raw.id matches Some(id) ==> (r matches Some(m) && m matches CdpMessage::Response {
            id: rid,
            result,
        } && rid == id && {
            &&& raw.has_error ==> (result matches Err(e) && e matches Error::Cdp {
                method,
                code,
                message,
            } && {
                &&& match raw.method {
                    Some(m) => method@ == m@,
                    None => method@ == "unknown"@,
                }
                &&& code == match raw.error_code {
                    Some(c) => c,
                    None => -1i64,
                }
                &&& match raw.error_message {
                    Some(s) => message@ == s@,
                    None => message@ == "unknown"@,
                }
            })
            &&& !raw.has_error ==> (result matches Ok(v) && (raw.result matches Some(given)
                ==> v == given) && (raw.result is None ==> is_empty_json(v)))
        }),
        raw.id is None ==> (raw.method matches Some(m) ==> (r matches Some(msg) && msg
            matches CdpMessage::Event { method, params, session_id } && {
            &&& method == m
            &&& (raw.params matches Some(given) ==> params == given)
            &&& (raw.params is None ==> is_empty_json(params))
            &&& session_id == raw.session_id
        })),
        raw.id is None && raw.method is None ==> r is None,
{
    match raw.id {
        Some(id) => {
            let result: Result<serde_json::Value, Error> = if raw.has_error {
                let method: &str = match &raw.method {
                    Some(m) => m.as_str(),
                    None => "unknown",
                };
                let code: i64 = match raw.error_code {
                    Some(c) => c,
                    None => -1i64,
                };
                let message: &str = match &raw.error_message {
                    Some(s) => s.as_str(),
                    None => "unknown",
                };
                Err(Error::cdp(method, code, message))
            } else {
                match raw.result {
                    Some(v) => Ok(v),
                    None => Ok(json_empty_object()),
                }
            };
            Some(CdpMessage::Response { id, result })
        },
        None => {
            match raw.method {
                Some(method) => {
                    let params = match raw.params {
                        Some(v) => v,
                        None => json_empty_object(),
                    };
                    Some(CdpMessage::Event { method, params, session_id: raw.session_id })
                },
                None => None,
            }
        },
    }
}

/// Classify one inbound text payload: parse, extract, classify — the
/// classification rule applied to the named fields of the text.
pub fn classify_text(text: &str) -> (r: Option<CdpMessage>)
    ensures
        envelope_fields_of(text@) is None ==> r is None,
        envelope_fields_of(text@) matches Some(f) ==> {
            &&& (f.id matches Some(id) ==> (r matches Some(m) && m
                matches CdpMessage::Response { id: rid, result } && rid == id && {
                &&& f.has_error ==> (result matches Err(e) && e matches Error::Cdp {
                    method,
                    code,
                    message,
                } && {
                    &&& match f.method {
                        Some(fm) => method@ == fm,
                        None => method@ == "unknown"@,
                    }
                    &&& code == match f.error_code {
                        Some(c) => c,
                        None => -1i64,
                    }
                    &&& match f.error_message {
                        Some(s) => message@ == s,
                        None => message@ == "unknown"@,
                    }
                })
                &&& !f.has_error ==> (result matches Ok(v) && (!f.has_result
                    ==> is_empty_json(v)))
            }))
            &&& (f.id is None ==> (f.method matches Some(fm) ==> (r matches Some(msg) && msg
                matches CdpMessage::Event { method, params, session_id } && {
                &&& method@ == fm
                &&& (!f.has_params ==> is_empty_json(params))
                &&& (match f.session_id {
                    Some(s) => session_id matches Some(sid) && sid@ == s,
                    None => session_id is None,
                })
            })))
            &&& (f.id is None && f.method is None ==> r is None)
        },
{
    match extract_envelope(text) {
        Some(raw) => classify(raw),
        None => None,
    }
}

} // verus!
