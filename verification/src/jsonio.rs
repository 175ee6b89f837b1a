//! The boundary to the JSON parser. Inbound frames and embedded packets
//! arrive as text; `serde_json` parses them, and everything after the parse
//! is verified code working over plain values. A parsed `serde_json::Value`
//! is opaque here: the accessors below hand its contents out as plain
//! values and promise nothing about them.

use vstd::prelude::*;

verus! {

#[verifier::external_type_specification]
#[verifier::external_body]
pub struct ExValue(serde_json::Value);

/// The number of elements of the JSON array that the text parses to, if the
/// text is one; a function of the text alone.
pub uninterp spec fn json_array_len(s: Seq<char>) -> Option<nat>;

/// Whether the text parses as a JSON value; a function of the text alone.
pub uninterp spec fn json_parses(s: Seq<char>) -> bool;

/// The first element of the JSON array the text parses to, where the text
/// is an array and that element is a string; a function of the text alone.
pub uninterp spec fn frame_head(s: Seq<char>) -> Option<Seq<char>>;

/// The second element of the JSON array the text parses to, where the text
/// is an array and that element is a string; a function of the text alone.
pub uninterp spec fn frame_second_text(s: Seq<char>) -> Option<Seq<char>>;

/// The bridge-packet fields the text parses to — operation name, argument
/// count, fee as JSON text — where the text is a JSON object with a string
/// `reducer`, an array `args` and a numeric `fee`; a function of the text
/// alone.
pub uninterp spec fn packet_fields(s: Seq<char>) -> Option<(Seq<char>, nat, Seq<char>)>;

/// Relies on `serde_json::from_str::<Vec<Value>>`: parses the text as a
/// JSON array; success and element count depend on the text alone.
#[verifier::external_body]
pub(crate) fn parse_json_array(text: &str) -> (r: Option<Vec<serde_json::Value>>)
    ensures
        match r {
            Some(v) => json_array_len(text@) == Some(v@.len()),
            None => json_array_len(text@) is None,
        },
{
    serde_json::from_str::<Vec<serde_json::Value>>(text).ok()
}

/// Relies on `serde_json::from_str::<Value>`: parses the text as one JSON
/// value; success depends on the text alone.
#[verifier::external_body]
pub(crate) fn parse_json_value(text: &str) -> (r: Option<serde_json::Value>)
    ensures
        r is Some <==> json_parses(text@),
{
    serde_json::from_str::<serde_json::Value>(text).ok()
}

/// Relies on `serde_json::from_str::<Vec<Value>>` and `Value::as_str`:
/// reads the frame's first element where the text is an array and that
/// element is a string; a function of the text alone.
#[verifier::external_body]
pub(crate) fn read_frame_head(text: &str) -> (r: Option<String>)
    ensures
        match r {
            Some(h) => frame_head(text@) == Some(h@),
            None => frame_head(text@) is None,
        },
{
    let vals: Vec<serde_json::Value> = serde_json::from_str(text).ok()?;
    Some(vals.get(0)?.as_str()?.to_string())
}

/// Relies on `serde_json::from_str::<Vec<Value>>` and `Value::as_str`:
/// reads the frame's second element where the text is an array and that
/// element is a string; a function of the text alone.
#[verifier::external_body]
pub(crate) fn read_frame_second_text(text: &str) -> (r: Option<String>)
    ensures
        match r {
            Some(s) => frame_second_text(text@) == Some(s@),
            None => frame_second_text(text@) is None,
        },
{
    let vals: Vec<serde_json::Value> = serde_json::from_str(text).ok()?;
    Some(vals.get(1)?.as_str()?.to_string())
}

/// Relies on `serde_json::from_str::<Value>`, `Value::get`, `Value::as_str`,
/// `Value::as_array`, `Value::is_number` and the `Display` rendering of
/// `Value`: reads the bridge-packet fields out of the content text; a
/// function of the text alone, and only valid JSON holds a packet.
#[verifier::external_body]
pub(crate) fn parse_packet_fields(text: &str) -> (r: Option<(String, usize, String)>)
    ensures
        match r {
            Some(p) => packet_fields(text@) == Some((p.0@, p.1 as nat, p.2@)),
            None => packet_fields(text@) is None,
        },
        r is Some ==> json_parses(text@),
{
    let v: serde_json::Value = serde_json::from_str(text).ok()?;
    let reducer = v.get("reducer")?.as_str()?.to_string();
    let count = v.get("args")?.as_array()?.len();
    let fee = v.get("fee")?;
    if !fee.is_number() {
        return None;
    }
    Some((reducer, count, fee.to_string()))
}

/// Relies on `serde_json::Value::get`: field lookup in a JSON object,
/// `None` on any other kind of value or a missing key.
#[verifier::external_body]
pub(crate) fn value_get<'a>(v: &'a serde_json::Value, key: &str) -> Option<&'a serde_json::Value> {
    v.get(key)
}

/// Relies on `serde_json::Value::as_str`: the text of a JSON string value,
/// `None` on any other kind of value.
#[verifier::external_body]
pub(crate) fn value_as_string(v: &serde_json::Value) -> Option<String> {
    match v.as_str() {
        Some(s) => Some(s.to_string()),
        None => None,
    }
}

/// Relies on `serde_json::Value::as_u64`: the value of a JSON number that
/// is a non-negative integer within `u64`, `None` otherwise.
#[verifier::external_body]
pub(crate) fn value_as_u64(v: &serde_json::Value) -> Option<u64> {
    v.as_u64()
}

/// Relies on `serde_json::Value::as_array`: the elements of a JSON array
/// value, `None` on any other kind of value.
#[verifier::external_body]
pub(crate) fn value_as_array(v: &serde_json::Value) -> Option<Vec<serde_json::Value>> {
    match v.as_array() {
        Some(a) => Some(a.clone()),
        None => None,
    }
}

} // verus!
