//! Classification of raw log lines as structured events.
//!
//! A line is a structured event when it opens with the literal marker
//! `EVENT_JSON:` and the rest of the line is a JSON object with string
//! fields `standard`, `version` and `event`, and an optional field `data`.

use vstd::prelude::*;
use vstd::slice::slice_index_get;
use vstd::slice::slice_subrange;
use vstd::utf8::encode_utf8;

verus! {

#[verifier::external_type_specification]
#[verifier::external_body]
pub struct ExValue(serde_json::Value);

/// What classification reads out of a structured event log body.
pub struct Nep297Fields {
    pub standard: Seq<char>,
    pub version: Seq<char>,
    pub event: Seq<char>,
    pub has_data: bool,
}

/// The result of deserializing an event log body: `None` when the bytes are
/// not a JSON object with string fields `standard`, `version` and `event`;
/// otherwise those three fields and whether a `data` field is present.
pub uninterp spec fn nep297_fields_of(body: Seq<u8>) -> Option<Nep297Fields>;

/// The structured fields carried by one log line, as the original line emits them.
pub struct EventLogData {
    pub standard: String,
    pub version: String,
    pub event: String,
    pub data: Option<serde_json::Value>,
}

/// The byte sequence of the literal marker `EVENT_JSON:` that opens a
/// structured event log line.
pub open spec fn event_prefix() -> Seq<u8> {
    seq![69u8, 86u8, 69u8, 78u8, 84u8, 95u8, 74u8, 83u8, 79u8, 78u8, 58u8]
}

/// Whether a log line's bytes open with the structured-event marker.
pub open spec fn has_event_prefix(bytes: Seq<u8>) -> bool {
    bytes.len() >= event_prefix().len() && bytes.subrange(0, event_prefix().len() as int)
        == event_prefix()
}

/// The bytes of a log line after the structured-event marker.
pub open spec fn event_body(bytes: Seq<u8>) -> Seq<u8> {
    bytes.skip(event_prefix().len() as int)
}

/// The structured event a log line stands for, if any: the line must open
/// with the marker and its body must deserialize to the required fields.
pub open spec fn classify_line(line: Seq<char>) -> Option<Nep297Fields> {
    if has_event_prefix(encode_utf8(line)) {
        nep297_fields_of(event_body(encode_utf8(line)))
    } else {
        None
    }
}

/// The byte of the structured-event marker at a given position.
fn prefix_byte(i: usize) -> (b: u8)
    requires
        i < event_prefix().len(),
    ensures
        b == event_prefix()[i as int],
{
    let b: u8 = match i {
        0 => 69,
        1 => 86,
        2 => 69,
        3 => 78,
        4 => 84,
        5 => 95,
        6 => 74,
        7 => 83,
        8 => 79,
        9 => 78,
        _ => 58,
    };
    assert(b == event_prefix()[i as int]);
    b
}

/// Relies on `serde_json::from_slice::<serde_json::Value>` and on
/// `serde_json::Value::{as_str, get}`: whether the body bytes form a JSON
/// object with string fields `standard`, `version` and `event`, and which
/// values those fields and `data` hold, depend on the body bytes alone.
/// Indexing a `serde_json::Value` with a missing key yields `Null`, so the
/// call returns on every input.
#[verifier::external_body]
fn parse_nep297_body(body: &[u8]) -> (r: Option<EventLogData>)
    ensures
        r is Some <==> nep297_fields_of(body@) is Some,
        (r matches Some(p) ==> (nep297_fields_of(body@) matches Some(f) && p.standard@
            == f.standard && p.version@ == f.version && p.event@ == f.event && (p.data is Some
            <==> f.has_data))),
{
    let v: serde_json::Value = match serde_json::from_slice(body) {
        Ok(v) => v,
        Err(_) => return None,
    };
    let (standard, version, event) = match (v["standard"].as_str(), v["version"].as_str(), v["event"].as_str()) {
        (Some(s), Some(ver), Some(ev)) => (s.to_string(), ver.to_string(), ev.to_string()),
        _ => return None,
    };
    Some(EventLogData { standard, version, event, data: v.get("data").cloned() })
}

/// Attempt to read a raw log line as a structured event. Succeeds exactly on
/// the lines [`classify_line`] accepts, and returns the fields it names.
pub fn parse_event_log(log: &str) -> (r: Option<EventLogData>)
    ensures
        r is Some <==> classify_line(log@) is Some,
        (r matches Some(p) ==> (classify_line(log@) matches Some(f) && p.standard@ == f.standard
            && p.version@ == f.version && p.event@ == f.event && (p.data is Some
            <==> f.has_data))),
{
    let bytes: &[u8] = log.as_bytes();
    if bytes.len() < 11 {
        return None;
    }
    let mut i: usize = 0;
    while i < 11
        invariant
            i <= 11,
            bytes@.len() >= 11,
            bytes@ == encode_utf8(log@),
            forall|j: int| 0 <= j < i ==> bytes@[j] == event_prefix()[j],
        decreases 11 - i,
    {
        if *slice_index_get(bytes, i) != prefix_byte(i) {
            proof {
                assert(bytes@.subrange(0, 11)[i as int] != event_prefix()[i as int]);
            }
            return None;
        }
        i += 1;
    }
    proof {
        assert(bytes@.subrange(0, 11) =~= event_prefix());
    }
    let body = slice_subrange(bytes, 11, bytes.len());
    proof {
        assert(body@ =~= event_body(encode_utf8(log@)));
    }
    parse_nep297_body(body)
}

} // verus!
