//! Trusted bindings to the outside crates the library leans on: URL parsing
//! and JSON parsing. Each binding's contract states no more than the crate's
//! own documentation promises; results that would take pages to state are
//! given names instead, and everything proved about them goes through those
//! names.

use vstd::prelude::*;

use crate::script::ScriptValue;

verus! {

/// What `url::Url::parse` decomposes the text `s` into — scheme, host and
/// path — or nothing where it rejects the text or the URL carries no host.
/// Parsing is a pure function of the text, so the name is sound.
pub uninterp spec fn url_parts_of(s: Seq<char>) -> Option<(Seq<char>, Seq<char>, Seq<char>)>;

/// Relies on `url::Url::parse` and the accessors `Url::scheme`,
/// `Url::host_str` and `Url::path`: `parse` either rejects the text or
/// yields the URL the accessors read the scheme, host and path back from.
/// The accessors are the only way to read a `Url`, so this binding makes the
/// one parse call and converts what they return.
#[verifier::external_body]
pub fn parse_url_parts(s: &str) -> (r: Option<(String, String, String)>)
    ensures
        r is Some <==> url_parts_of(s@) is Some,
        r matches Some(p) ==> url_parts_of(s@) matches Some(q) && p.0@ == q.0 && p.1@ == q.1
            && p.2@ == q.2,
{
    match url::Url::parse(s) {
        Ok(u) => match u.host_str() {
            Some(h) => Some((u.scheme().to_string(), h.to_string(), u.path().to_string())),
            None => None,
        },
        Err(_) => None,
    }
}

#[verifier::external_type_specification]
#[verifier::external_body]
pub struct ExJsonValue(serde_json::Value);

/// What `serde_json::from_str` parses the text `s` into, carried over into
/// the script-value model, or nothing where it rejects the text. Parsing is
/// a pure function of the text, so the name is sound.
pub uninterp spec fn json_parsed(s: Seq<char>) -> Option<ScriptValue>;

/// Relies on `serde_json::from_str::<serde_json::Value>`: it parses the text
/// as JSON, or rejects it with an error.
#[verifier::external_body]
pub fn json_parse(s: &str) -> (r: Option<ScriptValue>)
    ensures
        r == json_parsed(s@),
{
    serde_json::from_str::<serde_json::Value>(s).ok().map(json_value)
}

/// Carries a parsed `serde_json::Value` into the script-value model, one
/// variant arm each. Relies on `serde_json::Number::as_i64` to tell integral
/// numbers apart and on its `Display` form for the rest.
#[verifier::external_body]
fn json_value(v: serde_json::Value) -> ScriptValue {
    match v {
        serde_json::Value::Null => ScriptValue::Null,
        serde_json::Value::Bool(b) => ScriptValue::Bool(b),
        serde_json::Value::Number(n) => match n.as_i64() {
            Some(i) => ScriptValue::Int(i),
            None => ScriptValue::Num(n.to_string()),
        },
        serde_json::Value::String(s) => ScriptValue::Str(s),
        serde_json::Value::Array(a) => ScriptValue::Array(
            a.into_iter().map(json_value).collect(),
        ),
        serde_json::Value::Object(m) => ScriptValue::Object(
            m.into_iter().map(|e: (String, serde_json::Value)| (e.0, json_value(e.1))).collect(),
        ),
    }
}

} // verus!
