//! The outbound bridge step.
//!
//! The outbound loop pops one queued command at a time: an empty pop is
//! re-polled at once; a returned entry has its payload normalized to end in
//! the protocol line terminator and parsed, and is then either dispatched or
//! discarded — in both cases under the fixed flood-control pause.
//! `outbound_step` is that decision; the surrounding process performs the
//! pop, the send and the pause.

use vstd::prelude::*;

use crate::policy::FLOOD_INTERVAL_UNITS;
use crate::proto::{parse_message, parses_ok};

verus! {

/// Whether the text already ends in the protocol line terminator `"\r\n"`.
pub open spec fn has_terminator(s: Seq<char>) -> bool {
    s.len() >= 2 && s[s.len() - 2] == '\r' && s[s.len() - 1] == '\n'
}

/// The text with the line terminator appended when it was absent, and
/// unchanged when already present.
pub open spec fn normalized(s: Seq<char>) -> Seq<char> {
    if has_terminator(s) {
        s
    } else {
        s + seq!['\r', '\n']
    }
}

/// Terminator normalization is idempotent: a normalized payload is left
/// unchanged by a second normalization.
pub proof fn lemma_normalize_idempotent(s: Seq<char>)
    ensures
        has_terminator(normalized(s)),
        normalized(normalized(s)) == normalized(s),
{
    if !has_terminator(s) {
        let t = s + seq!['\r', '\n'];
        assert(t[t.len() - 2] == '\r');
        assert(t[t.len() - 1] == '\n');
    }
}

/// Appends the line terminator to `payload` unless it is already there.
pub fn normalize_payload(payload: String) -> (r: String)
    ensures
        r@ == normalized(payload@),
{
    let ghost p = payload@;
    let len = payload.as_str().unicode_len();
    if len >= 2 {
        let c1 = payload.as_str().get_char(len - 2);
        let c2 = payload.as_str().get_char(len - 1);
        if c1 == '\r' && c2 == '\n' {
            return payload;
        }
    }
    let mut r = payload;
    r.append("\r\n");
    proof {
        reveal_strlit("\r\n");
        assert(r@ =~= normalized(p));
    }
    r
}

/// What the outbound loop does with the outcome of one queue pop.
pub enum OutboundAction {
    /// Nothing was popped (timeout or a malformed pop result): poll again
    /// at once.
    Repoll,
    /// The payload parsed: send `message`, then pause for `pause` units.
    Dispatch { message: irc::proto::Message, pause: u64 },
    /// The payload did not parse: drop it, then pause for `pause` units.
    Discard { pause: u64 },
}

/// Decides the outbound action for one pop outcome.
///
/// A returned entry is the pair `[queue name, payload]`; its payload is
/// normalized to end in the line terminator and parsed.  A parsed payload
/// is dispatched, an unparsable one discarded without being sent, and both
/// carry the unconditional flood-control pause; anything else is re-polled
/// with no pause.
pub fn outbound_step(pop_result: Option<Vec<String>>) -> (r: OutboundAction)
    ensures
        match pop_result {
            Option::None => r is Repoll,
            Option::Some(entry) => {
                if entry@.len() != 2 {
                    r is Repoll
                } else if parses_ok(normalized(entry@[1]@)) {
                    &&& r is Dispatch
                    &&& (r matches OutboundAction::Dispatch { pause, .. } && pause
                        == FLOOD_INTERVAL_UNITS)
                } else {
                    r == (OutboundAction::Discard { pause: FLOOD_INTERVAL_UNITS })
                }
            },
        },
{
    match pop_result {
        None => OutboundAction::Repoll,
        Some(entry) => {
            if entry.len() != 2 {
                return OutboundAction::Repoll;
            }
            let payload = normalize_payload(entry[1].clone());
            match parse_message(payload.as_str()) {
                Some(message) => OutboundAction::Dispatch {
                    message,
                    pause: FLOOD_INTERVAL_UNITS,
                },
                None => OutboundAction::Discard { pause: FLOOD_INTERVAL_UNITS },
            }
        },
    }
}

} // verus!
