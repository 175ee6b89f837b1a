//! The per-connection protocol dispatcher: parse an inbound tagged-array
//! frame, consult the rate limiter, mutate the shared store, invoke the
//! bridge stub, and decide the response. Everything after the JSON parse is
//! verified over plain values.

use vstd::prelude::*;
use vstd::string::StringExecFns;
use crate::bridge::{handle_bls_stub, outcome_for, BridgeOutcome};
use crate::event::NostrEvent;
use crate::jsonio::{
    frame_head, frame_second_text, parse_json_array, read_frame_head, read_frame_second_text,
    value_as_array, value_as_string, value_as_u64, value_get,
};
use crate::limiter::{retained, RateLimiter};
use crate::store::EventStore;
use crate::wire::Response;

verus! {

/// The event kind reserved for privileged backend-bridge packets.
pub const BRIDGE_KIND: u32 = 30078;

/// The admission cap of one connection's rate limiter.
pub const RELAY_MAX_EVENTS: usize = 100;

/// The rate limiter's window length in seconds.
pub const RELAY_WINDOW_SECS: u64 = 60;

/// How the configured identity-propagation setting selects the bridge
/// strategy at startup: `"stub"` decodes and logs; anything else leaves
/// trigger-kind events untouched.
#[derive(Debug, Clone, Copy, PartialEq, Eq, Structural)]
pub enum PropagationMode {
    /// Decode trigger-kind events and log the packet.
    Stub,
    /// Do not invoke the bridge at all.
    Disabled,
}

/// Select the bridge strategy from the configured setting string.
pub fn mode_from_setting(setting: &str) -> (m: PropagationMode)
    ensures
        m == (if setting@ == "stub"@ {
            PropagationMode::Stub
        } else {
            PropagationMode::Disabled
        }),
{
    let s: String = setting.to_owned();
    let stub: String = "stub".to_owned();
    if s == stub {
        PropagationMode::Stub
    } else {
        PropagationMode::Disabled
    }
}

/// The notice text sent when a submission is rejected by the rate limiter.
pub open spec fn rate_limit_text() -> Seq<char> {
    "Rate limit exceeded. Max 100 events per 60 seconds."@
}

/// The notice text sent when a submission is rejected by the rate limiter.
pub fn rate_limit_notice() -> (r: String)
    ensures
        r@ == rate_limit_text(),
{
    "Rate limit exceeded. Max 100 events per 60 seconds.".to_owned()
}

/// What one inbound frame asks for, after parsing. A frame that is not a
/// JSON array, has no string first element, or carries an undecodable
/// payload is `Discard`: silently dropped, with no response, so that a
/// client cannot tell "ignored" from "never sent".
#[derive(Debug, Clone, PartialEq)]
pub enum ParsedCommand {
    /// A well-formed `EVENT` frame carrying a decoded event.
    Publish(NostrEvent),
    /// A `REQ` frame carrying a subscription identifier.
    Subscribe(String),
    /// A `CLOSE` frame: acknowledged by a diagnostic log only.
    CloseSub,
    /// A recognizable frame whose first element is no known command.
    Unknown,
    /// A frame to drop silently: malformed syntax, no recognizable first
    /// element, or a payload that does not decode.
    Discard,
}

/// Decode one JSON value as an event object: every field present with its
/// required type, the kind a non-negative integer within `u32`.
pub fn decode_event(v: &serde_json::Value) -> Option<NostrEvent> {
    let id = match value_get(v, "id") {
        Some(x) => match value_as_string(x) {
            Some(s) => s,
            None => {
                return None;
            },
        },
        None => {
            return None;
        },
    };
    let pubkey = match value_get(v, "pubkey") {
        Some(x) => match value_as_string(x) {
            Some(s) => s,
            None => {
                return None;
            },
        },
        None => {
            return None;
        },
    };
    let kind_raw = match value_get(v, "kind") {
        Some(x) => match value_as_u64(x) {
            Some(n) => n,
            None => {
                return None;
            },
        },
        None => {
            return None;
        },
    };
    if kind_raw > u32::MAX as u64 {
        return None;
    }
    let kind: u32 = kind_raw as u32;
    let content = match value_get(v, "content") {
        Some(x) => match value_as_string(x) {
            Some(s) => s,
            None => {
                return None;
            },
        },
        None => {
            return None;
        },
    };
    let created_at = match value_get(v, "created_at") {
        Some(x) => match value_as_u64(x) {
            Some(n) => n,
            None => {
                return None;
            },
        },
        None => {
            return None;
        },
    };
    let sig = match value_get(v, "sig") {
        Some(x) => match value_as_string(x) {
            Some(s) => s,
            None => {
                return None;
            },
        },
        None => {
            return None;
        },
    };
    let tag_vals = match value_get(v, "tags") {
        Some(x) => match value_as_array(x) {
            Some(a) => a,
            None => {
                return None;
            },
        },
        None => {
            return None;
        },
    };
    let mut tags: Vec<Vec<String>> = Vec::new();
    let mut i: usize = 0;
    while i < tag_vals.len()
        decreases tag_vals.len() - i,
    {
        let inner_vals = match value_as_array(&tag_vals[i]) {
            Some(a) => a,
            None => {
                return None;
            },
        };
        let mut inner: Vec<String> = Vec::new();
        let mut j: usize = 0;
        while j < inner_vals.len()
            decreases inner_vals.len() - j,
        {
            match value_as_string(&inner_vals[j]) {
                Some(s) => inner.push(s),
                None => {
                    return None;
                },
            }
            j = j + 1;
        }
        tags.push(inner);
        i = i + 1;
    }
    Some(NostrEvent { id, pubkey, kind, content, created_at, tags, sig })
}

/// Parse one inbound frame and dispatch on its first element. A frame
/// without a string first element is discarded; a `REQ` frame with a
/// string second element becomes a subscription for exactly that
/// identifier; `CLOSE` and unrecognized commands are pinned to their
/// silent commands. Only the event-object decode of an `EVENT` frame is
/// left open, since it reads deeply into an opaque parsed value.
pub fn classify_frame(text: &str) -> (cmd: ParsedCommand)
    ensures
        frame_head(text@) is None ==> cmd == ParsedCommand::Discard,
        frame_head(text@) matches Some(h) ==> {
            &&& h == "REQ"@ ==> (match frame_second_text(text@) {
                Some(s) => cmd matches ParsedCommand::Subscribe(sub) && sub@ == s,
                None => cmd == ParsedCommand::Discard,
            })
            &&& h == "CLOSE"@ ==> cmd == ParsedCommand::CloseSub
            &&& (h != "EVENT"@ && h != "REQ"@ && h != "CLOSE"@) ==> cmd == ParsedCommand::Unknown
            &&& h == "EVENT"@ ==> (cmd is Publish || cmd is Discard)
        },
{
    proof {
        reveal_strlit("EVENT");
        reveal_strlit("REQ");
        reveal_strlit("CLOSE");
        assert(("EVENT"@).len() == 5);
        assert(("REQ"@).len() == 3);
        assert(("CLOSE"@).len() == 5);
        assert("EVENT"@ != "REQ"@);
        assert("REQ"@ != "CLOSE"@);
        assert(("EVENT"@)[0] == 'E');
        assert(("CLOSE"@)[0] == 'C');
        assert("EVENT"@ != "CLOSE"@);
    }
    let head = match read_frame_head(text) {
        Some(h) => h,
        None => {
            return ParsedCommand::Discard;
        },
    };
    let ev_tag: String = "EVENT".to_owned();
    let req_tag: String = "REQ".to_owned();
    let close_tag: String = "CLOSE".to_owned();
    if head == ev_tag {
        let vals = match parse_json_array(text) {
            Some(v) => v,
            None => {
                return ParsedCommand::Discard;
            },
        };
        if vals.len() >= 2 {
            match decode_event(&vals[1]) {
                Some(ev) => ParsedCommand::Publish(ev),
                None => ParsedCommand::Discard,
            }
        } else {
            ParsedCommand::Discard
        }
    } else if head == req_tag {
        match read_frame_second_text(text) {
            Some(sub) => ParsedCommand::Subscribe(sub),
            None => ParsedCommand::Discard,
        }
    } else if head == close_tag {
        ParsedCommand::CloseSub
    } else {
        ParsedCommand::Unknown
    }
}

/// Whether one more submission is admitted by a limiter in this state at
/// this time.
pub open spec fn admits(lim: RateLimiter, now_ms: u64) -> bool {
    retained(lim.admissions_seq(), now_ms, lim.window_ms()).len() < lim.cap()
}

/// Carry out one parsed command against the connection's limiter and the
/// shared store, and decide the response and the bridge outcome.
///
/// An admitted event is stored under its identifier (overwriting any prior
/// record) and acknowledged; a rate-limited event is refused with a notice
/// and not stored; a subscription request is answered with end-of-stream
/// regardless of store contents; everything else is silent and changes
/// nothing. The bridge runs exactly for admitted trigger-kind events in
/// stub mode, and its outcome never affects storage or acknowledgment.
pub fn process_command(
    cmd: ParsedCommand,
    limiter: &mut RateLimiter,
    store: &mut EventStore,
    mode: PropagationMode,
    now_ms: u64,
) -> (r: (Option<Response>, Option<BridgeOutcome>))
    requires
        old(store).wf(),
    ensures
        final(store).wf(),
        final(limiter).cap() == old(limiter).cap(),
        final(limiter).window_ms() == old(limiter).window_ms(),
        cmd matches ParsedCommand::Publish(ev) ==> {
            &&& admits(*old(limiter), now_ms) ==> {
                &&& final(store)@ == old(store)@.insert(ev@.id, ev@)
                &&& final(limiter).admissions_seq() == retained(
                    old(limiter).admissions_seq(),
                    now_ms,
                    old(limiter).window_ms(),
                ).push(now_ms)
                &&& r.0 matches Some(resp) && resp matches Response::Accepted { id } && id == ev.id
                &&& if ev.kind == BRIDGE_KIND && mode == PropagationMode::Stub {
                    r.1 matches Some(b) && outcome_for(ev, b)
                } else {
                    r.1 is None
                }
            }
            &&& !admits(*old(limiter), now_ms) ==> {
                &&& final(store)@ == old(store)@
                &&& final(limiter).admissions_seq() == retained(
                    old(limiter).admissions_seq(),
                    now_ms,
                    old(limiter).window_ms(),
                )
                &&& r.0 matches Some(resp) && resp matches Response::Notice { msg } && msg@
                    == rate_limit_text()
                &&& r.1 is None
            }
        },
        cmd matches ParsedCommand::Subscribe(sub) ==> {
            &&& *final(store) == *old(store)
            &&& *final(limiter) == *old(limiter)
            &&& r.0 matches Some(resp) && resp matches Response::EndOfStream { sub: s } && s == sub
            &&& r.1 is None
        },
        (cmd is CloseSub || cmd is Unknown || cmd is Discard) ==> {
            &&& *final(store) == *old(store)
            &&& *final(limiter) == *old(limiter)
            &&& r.0 is None
            &&& r.1 is None
        },
{
    match cmd {
        ParsedCommand::Publish(ev) => {
            let admitted = limiter.check_and_record(now_ms);
            if !admitted {
                (Some(Response::Notice { msg: rate_limit_notice() }), None)
            } else {
                let bridge: Option<BridgeOutcome> = if ev.kind == BRIDGE_KIND && mode
                    == PropagationMode::Stub {
                    Some(handle_bls_stub(&ev))
                } else {
                    None
                };
                let id = ev.id.clone();
                store.insert(ev);
                (Some(Response::Accepted { id }), bridge)
            }
        },
        ParsedCommand::Subscribe(sub) => (Some(Response::EndOfStream { sub }), None),
        ParsedCommand::CloseSub => (None, None),
        ParsedCommand::Unknown => (None, None),
        ParsedCommand::Discard => (None, None),
    }
}

/// Handle one inbound frame end to end: classify, then process. A frame
/// without a string first element produces no response and changes
/// nothing; a `REQ` frame with a string second element is answered with
/// end-of-stream for exactly that identifier, whatever the store holds;
/// `CLOSE` and unrecognized commands produce silence and change nothing.
pub fn handle_frame(
    text: &str,
    limiter: &mut RateLimiter,
    store: &mut EventStore,
    mode: PropagationMode,
    now_ms: u64,
) -> (r: (Option<Response>, Option<BridgeOutcome>))
    requires
        old(store).wf(),
    ensures
        final(store).wf(),
        final(limiter).cap() == old(limiter).cap(),
        final(limiter).window_ms() == old(limiter).window_ms(),
        frame_head(text@) is None ==> {
            &&& *final(store) == *old(store)
            &&& *final(limiter) == *old(limiter)
            &&& r.0 is None
            &&& r.1 is None
        },
        frame_head(text@) matches Some(h) ==> {
            &&& h == "REQ"@ ==> (match frame_second_text(text@) {
                Some(s) => {
                    &&& r.0 matches Some(resp) && resp matches Response::EndOfStream { sub }
                        && sub@ == s
                    &&& r.1 is None
                    &&& *final(store) == *old(store)
                    &&& *final(limiter) == *old(limiter)
                },
                None => {
                    &&& r.0 is None
                    &&& r.1 is None
                    &&& *final(store) == *old(store)
                    &&& *final(limiter) == *old(limiter)
                },
            })
            &&& (h == "CLOSE"@ || (h != "EVENT"@ && h != "REQ"@)) ==> {
                &&& r.0 is None
                &&& r.1 is None
                &&& *final(store) == *old(store)
                &&& *final(limiter) == *old(limiter)
            }
        },
{
    let cmd = classify_frame(text);
    process_command(cmd, limiter, store, mode, now_ms)
}

} // verus!
