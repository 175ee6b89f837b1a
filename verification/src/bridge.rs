//! The bridge decoder: a stateless decode-and-log stub for the privileged
//! packet embedded in the content of a trigger-kind event. Its outcome is a
//! log line; it never affects whether the originating event is stored.

use vstd::prelude::*;
use vstd::string::StrSliceExecFns;
use vstd::string::StringExecFns;
use crate::event::NostrEvent;
use crate::jsonio::{
    json_parses, packet_fields, parse_json_value, parse_packet_fields, value_as_array,
    value_as_string, value_get,
};
use crate::wire::{dec_rep, push_char, render_u64};

verus! {

/// Whether the character is in one of Unicode's letter or number
/// categories; a property of the character alone.
pub uninterp spec fn unicode_alphanumeric(c: char) -> bool;

/// Relies on `char::is_alphanumeric`. ASCII letters and digits are
/// alphanumeric; every other ASCII character is not.
#[verifier::external_body]
fn is_alphanumeric_char(c: char) -> (r: bool)
    ensures
        r == unicode_alphanumeric(c),
        (('a' <= c && c <= 'z') || ('A' <= c && c <= 'Z') || ('0' <= c && c <= '9')) ==> r,
        ((c as u32) < 128 && !(('a' <= c && c <= 'z') || ('A' <= c && c <= 'Z') || ('0' <= c && c
            <= '9'))) ==> !r,
{
    c.is_alphanumeric()
}

/// A character survives operation-name sanitizing when it is alphanumeric
/// or an underscore.
pub open spec fn reducer_keeps(c: char) -> bool {
    unicode_alphanumeric(c) || c == '_'
}

/// Whether one character survives operation-name sanitizing. ASCII letters,
/// digits and the underscore survive; every other ASCII character is
/// removed.
pub fn reducer_keeps_char(c: char) -> (r: bool)
    ensures
        r == reducer_keeps(c),
        (('a' <= c && c <= 'z') || ('A' <= c && c <= 'Z') || ('0' <= c && c <= '9') || c == '_')
            ==> r,
        ((c as u32) < 128 && !(('a' <= c && c <= 'z') || ('A' <= c && c <= 'Z') || ('0' <= c && c
            <= '9') || c == '_')) ==> !r,
{
    is_alphanumeric_char(c) || c == '_'
}

/// The sanitized backend operation name: every character that is not
/// alphanumeric or an underscore removed, a defense against log and command
/// injection.
pub open spec fn sanitized(s: Seq<char>) -> Seq<char> {
    s.filter(|c: char| reducer_keeps(c))
}

/// Remove every character that is not alphanumeric or an underscore.
pub fn sanitize_reducer(s: &str) -> (r: String)
    ensures
        r@ == sanitized(s@),
{
    let n: usize = s.unicode_len();
    let mut out = String::new();
    let mut i: usize = 0;
    proof {
        reveal(Seq::filter);
        assert(s@.take(0) =~= Seq::<char>::empty());
        assert(sanitized(s@.take(0)) =~= Seq::<char>::empty());
    }
    while i < n
        invariant
            n == s@.len(),
            i <= n,
            out@ == sanitized(s@.take(i as int)),
        decreases n - i,
    {
        let c = s.get_char(i);
        proof {
            reveal(Seq::filter);
            assert(s@.take(i + 1).drop_last() =~= s@.take(i as int));
            assert(s@.take(i + 1).last() == s@[i as int]);
        }
        if reducer_keeps_char(c) {
            push_char(&mut out, c);
        }
        i = i + 1;
    }
    proof {
        assert(s@.take(n as int) =~= s@);
    }
    out
}

/// The redacted form of a publisher key for logging: a key longer than
/// eight characters keeps its first eight and gains an ellipsis marker; a
/// shorter key stands unredacted.
pub open spec fn redacted(s: Seq<char>) -> Seq<char> {
    if s.len() > 8 {
        s.take(8) + "..."@
    } else {
        s
    }
}

/// Redact a publisher key for logging.
pub fn redact_pubkey(s: &str) -> (r: String)
    ensures
        r@ == redacted(s@),
{
    let n: usize = s.unicode_len();
    if n > 8 {
        let head = s.substring_char(0, 8);
        let mut out: String = head.to_owned();
        out.append("...");
        proof {
            assert(out@ =~= redacted(s@));
        }
        out
    } else {
        s.to_owned()
    }
}

/// Why a bridge packet could not be decoded from an event's content.
#[derive(Debug, Clone, Copy, PartialEq, Eq, Structural)]
pub enum BridgeDecodeError {
    /// The content is not valid JSON.
    NotJson,
    /// The backend operation name is missing or not a string.
    BadReducer,
    /// The argument list is missing or not an array.
    BadArgs,
    /// The fee is missing or not a number.
    BadFee,
}

/// The text of a decode error.
pub open spec fn describe_spec(e: BridgeDecodeError) -> Seq<char> {
    match e {
        BridgeDecodeError::NotJson => "content is not valid JSON"@,
        BridgeDecodeError::BadReducer => "reducer is missing or not a string"@,
        BridgeDecodeError::BadArgs => "args is missing or not an array"@,
        BridgeDecodeError::BadFee => "fee is missing or not a number"@,
    }
}

impl BridgeDecodeError {
    /// The text of this decode error.
    pub fn describe(&self) -> (r: String)
        ensures
            r@ == describe_spec(*self),
    {
        match self {
            BridgeDecodeError::NotJson => "content is not valid JSON".to_owned(),
            BridgeDecodeError::BadReducer => "reducer is missing or not a string".to_owned(),
            BridgeDecodeError::BadArgs => "args is missing or not an array".to_owned(),
            BridgeDecodeError::BadFee => "fee is missing or not a number".to_owned(),
        }
    }
}

/// What the bridge reads out of a decoded packet: the backend operation
/// name as submitted, the number of arguments, and the fee as JSON text.
#[derive(Debug, Clone, PartialEq)]
pub struct BridgePacketInfo {
    pub reducer: String,
    pub args_count: usize,
    pub fee_text: String,
}

/// Diagnose why an event's content held no packet: called only once the
/// full parse came back empty, so when the content is JSON and the
/// operation name and argument list are in order, the fee must be at
/// fault.
fn classify_packet_error(content: &str) -> (e: BridgeDecodeError)
    ensures
        (e == BridgeDecodeError::NotJson) <==> !json_parses(content@),
{
    let v = match parse_json_value(content) {
        Some(v) => v,
        None => {
            return BridgeDecodeError::NotJson;
        },
    };
    let reducer_ok = match value_get(&v, "reducer") {
        Some(x) => value_as_string(x).is_some(),
        None => false,
    };
    if !reducer_ok {
        return BridgeDecodeError::BadReducer;
    }
    let args_ok = match value_get(&v, "args") {
        Some(x) => value_as_array(x).is_some(),
        None => false,
    };
    if !args_ok {
        return BridgeDecodeError::BadArgs;
    }
    BridgeDecodeError::BadFee
}

/// Decode an event's content as a bridge packet: a JSON object with a
/// string `reducer`, an array `args`, and a numeric `fee`. The decoded
/// fields are exactly the packet fields of the content text.
pub fn decode_bridge_packet(content: &str) -> (r: Result<BridgePacketInfo, BridgeDecodeError>)
    ensures
        r is Ok <==> packet_fields(content@) is Some,
        r matches Ok(info) ==> packet_fields(content@) == Some(
            (info.reducer@, info.args_count as nat, info.fee_text@),
        ),
        r is Ok ==> json_parses(content@),
        (r matches Err(e) && e == BridgeDecodeError::NotJson) <==> !json_parses(content@),
{
    match parse_packet_fields(content) {
        Some(p) => Ok(BridgePacketInfo { reducer: p.0, args_count: p.1, fee_text: p.2 }),
        None => Err(classify_packet_error(content)),
    }
}

/// The informational log line for a decoded packet: redacted publisher key,
/// sanitized operation name, argument count, and fee.
pub open spec fn bridge_ok_line(
    pk: Seq<char>,
    reducer: Seq<char>,
    args_count: nat,
    fee_text: Seq<char>,
) -> Seq<char> {
    "[BLS STUB] Received kind 30078 from "@ + redacted(pk) + ": reducer="@ + sanitized(reducer)
        + ", args_count="@ + dec_rep(args_count) + ", fee="@ + fee_text
}

/// The warning log line for a packet that did not decode: redacted
/// publisher key and the decode error.
pub open spec fn bridge_err_line(pk: Seq<char>, e: BridgeDecodeError) -> Seq<char> {
    "[BLS STUB] Failed to decode ILP packet from kind 30078 event from "@ + redacted(pk) + ": "@
        + describe_spec(e)
}

/// Build the informational log line for a decoded packet.
pub fn bridge_report_ok(pubkey: &str, info: &BridgePacketInfo) -> (line: String)
    ensures
        line@ == bridge_ok_line(pubkey@, info.reducer@, info.args_count as nat, info.fee_text@),
{
    let mut out: String = "[BLS STUB] Received kind 30078 from ".to_owned();
    let red = redact_pubkey(pubkey);
    out.append(red.as_str());
    out.append(": reducer=");
    let san = sanitize_reducer(info.reducer.as_str());
    out.append(san.as_str());
    out.append(", args_count=");
    let cnt = render_u64(info.args_count as u64);
    out.append(cnt.as_str());
    out.append(", fee=");
    out.append(info.fee_text.as_str());
    proof {
        assert(out@ =~= bridge_ok_line(
            pubkey@,
            info.reducer@,
            info.args_count as nat,
            info.fee_text@,
        ));
    }
    out
}

/// Build the warning log line for a packet that did not decode.
pub fn bridge_report_err(pubkey: &str, e: BridgeDecodeError) -> (line: String)
    ensures
        line@ == bridge_err_line(pubkey@, e),
{
    let mut out: String = "[BLS STUB] Failed to decode ILP packet from kind 30078 event from "
        .to_owned();
    let red = redact_pubkey(pubkey);
    out.append(red.as_str());
    out.append(": ");
    let desc = e.describe();
    out.append(desc.as_str());
    proof {
        assert(out@ =~= bridge_err_line(pubkey@, e));
    }
    out
}

/// What the bridge stub did with one trigger-kind event, carrying the log
/// line it emitted.
#[derive(Debug, Clone, PartialEq)]
pub enum BridgeOutcome {
    /// The packet decoded; the informational line was produced.
    Forwarded { info: BridgePacketInfo, line: String },
    /// The packet did not decode; the warning line was produced.
    Rejected { error: BridgeDecodeError, line: String },
}

/// The outcome a bridge invocation on `ev` must report: a forwarded
/// outcome carries exactly the packet fields of the content text and the
/// informational line they dictate, and comes exactly when the content
/// holds a packet; a rejected outcome carries the warning line for its
/// error, with the not-JSON error exactly when the content is not JSON.
pub open spec fn outcome_for(ev: NostrEvent, r: BridgeOutcome) -> bool {
    match r {
        BridgeOutcome::Forwarded { info, line } => {
            &&& packet_fields(ev@.content) == Some(
                (info.reducer@, info.args_count as nat, info.fee_text@),
            )
            &&& line@ == bridge_ok_line(
                ev@.pubkey,
                info.reducer@,
                info.args_count as nat,
                info.fee_text@,
            )
            &&& json_parses(ev@.content)
        },
        BridgeOutcome::Rejected { error, line } => {
            &&& packet_fields(ev@.content) is None
            &&& line@ == bridge_err_line(ev@.pubkey, error)
            &&& ((error == BridgeDecodeError::NotJson) <==> !json_parses(ev@.content))
        },
    }
}

impl BridgeOutcome {
    /// The log line the outcome carries.
    pub fn line(&self) -> (r: &String)
        ensures
            r == (match *self {
                BridgeOutcome::Forwarded { info, line } => line,
                BridgeOutcome::Rejected { error, line } => line,
            }),
    {
        match self {
            BridgeOutcome::Forwarded { info, line } => line,
            BridgeOutcome::Rejected { error, line } => line,
        }
    }
}

/// Decode the packet embedded in a trigger-kind event's content and report
/// the log line: decode failure is observational only and never touches
/// the event's storage or acknowledgment.
pub fn handle_bls_stub(event: &NostrEvent) -> (r: BridgeOutcome)
    ensures
        outcome_for(*event, r),
{
    match decode_bridge_packet(event.content.as_str()) {
        Ok(info) => {
            let line = bridge_report_ok(event.pubkey.as_str(), &info);
            BridgeOutcome::Forwarded { info, line }
        },
        Err(error) => {
            let line = bridge_report_err(event.pubkey.as_str(), error);
            BridgeOutcome::Rejected { error, line }
        },
    }
}

} // verus!
