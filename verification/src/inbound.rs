//! The inbound bridge step.
//!
//! For each event read from the protocol connection the bridge obtains a new
//! sequence number from the store's counter (falling back to 0 when the
//! increment fails), forms the record `"{n} {text}"`, appends it to the
//! bounded history, trims the history to its limit, and announces the new
//! sequence number.  `process_event` computes everything the loop hands to
//! the store; `InboundState` is the resulting counter-and-history state under
//! failure-free store operation, with its shape proved in
//! `lemma_inbound_history_shape`.

use vstd::prelude::*;

use crate::digits::{dec_str, u64_to_string};
use crate::history::{hist_step, BoundedHistory};
use crate::proto::render_message;

verus! {

/// The record stored for the event rendered as `text` under sequence
/// number `n`: the decimal number, one space, the text.
pub open spec fn record_line(n: nat, text: Seq<char>) -> Seq<char> {
    dec_str(n) + seq![' '] + text
}

/// Builds the record `"{n} {text}"`.
pub fn build_record(n: u64, text: &str) -> (r: String)
    ensures
        r@ == record_line(n as nat, text@),
{
    proof {
        reveal_strlit(" ");
    }
    let mut s = u64_to_string(n);
    s.append(" ");
    s.append(text);
    proof {
        assert(s@ =~= record_line(n as nat, text@));
    }
    s
}

/// Everything the inbound loop hands to the store for one event: the
/// sequence number to announce, the record to append, and the index range
/// the history list is trimmed to.
pub struct InboundEffects {
    /// The sequence number assigned to the event; 0 when the counter
    /// increment failed.
    pub sequence: u64,
    /// The record appended to the history list.
    pub record: String,
    /// First index retained by the trim; counts from the end of the list.
    pub trim_start: i64,
    /// Last index retained by the trim; the tail of the list.
    pub trim_end: i64,
}

/// Computes the store effects of one inbound event.
///
/// `counter_result` is the outcome of the counter increment; on failure the
/// sequence number falls back to 0 and the event is still recorded.  The
/// trim range retains exactly the newest `history_limit` entries.
pub fn process_event(text: &str, counter_result: Option<u64>, history_limit: usize) -> (r:
    InboundEffects)
    requires
        1 <= history_limit <= i64::MAX,
    ensures
        r.sequence == (match counter_result {
            Some(n) => n,
            None => 0u64,
        }),
        r.record@ == record_line(r.sequence as nat, text@),
        r.trim_start == -(history_limit as int),
        r.trim_end == -1,
{
    let sequence: u64 = match counter_result {
        Some(n) => n,
        None => 0,
    };
    let record = build_record(sequence, text);
    InboundEffects { sequence, record, trim_start: -(history_limit as i64), trim_end: -1 }
}

/// Computes the store effects of one inbound protocol message.
///
/// The message is rendered to its canonical text by the protocol
/// collaborator; whatever that rendering was, the record is the sequence
/// number, one space, and the rendered text, and the remaining effects are
/// exactly those of `process_event`.
pub fn handle_event(
    message: &irc::proto::Message,
    counter_result: Option<u64>,
    history_limit: usize,
) -> (r: InboundEffects)
    requires
        1 <= history_limit <= i64::MAX,
    ensures
        r.sequence == (match counter_result {
            Some(n) => n,
            None => 0u64,
        }),
        exists|text: Seq<char>| r.record@ == record_line(r.sequence as nat, text),
        r.trim_start == -(history_limit as int),
        r.trim_end == -1,
{
    let text = render_message(message);
    let r = process_event(text.as_str(), counter_result, history_limit);
    proof {
        assert(r.record@ == record_line(r.sequence as nat, text@));
    }
    r
}

/// The history contents after recording `texts` in order, starting from a
/// fresh counter at `n0`: event number `i` (0-based) is recorded under
/// sequence number `n0 + i + 1`, and after every append the history is
/// trimmed to `limit`.
pub open spec fn run_inbound(n0: nat, texts: Seq<Seq<char>>, limit: int) -> Seq<Seq<char>>
    decreases texts.len(),
{
    if texts.len() == 0 {
        Seq::empty()
    } else {
        hist_step(
            run_inbound(n0, texts.drop_last(), limit),
            limit,
            record_line(n0 + texts.len(), texts.last()),
        )
    }
}

/// After N failure-free inbound events the history holds exactly
/// `min(N, limit)` entries, oldest first, and they are the records of the
/// last `min(N, limit)` events under strictly increasing, contiguous
/// sequence numbers ending at `n0 + N`.
pub proof fn lemma_inbound_history_shape(n0: nat, texts: Seq<Seq<char>>, limit: int)
    requires
        limit >= 1,
    ensures
        run_inbound(n0, texts, limit).len() == if texts.len() <= limit {
            texts.len() as int
        } else {
            limit
        },
        forall|i: int|
            0 <= i < run_inbound(n0, texts, limit).len() ==> #[trigger] run_inbound(
                n0,
                texts,
                limit,
            )[i] == {
                let first = texts.len() - run_inbound(n0, texts, limit).len();
                record_line((n0 + first + i + 1) as nat, texts[first + i])
            },
    decreases texts.len(),
{
    if texts.len() > 0 {
        lemma_inbound_history_shape(n0, texts.drop_last(), limit);
        let prev = run_inbound(n0, texts.drop_last(), limit);
        let h = run_inbound(n0, texts, limit);
        let last_rec = record_line(n0 + texts.len(), texts.last());
        assert(h == hist_step(prev, limit, last_rec));
        if prev.len() + 1 <= limit {
            assert(h =~= prev.push(last_rec));
        } else {
            assert(h =~= prev.push(last_rec).subrange(1, prev.len() as int + 1));
        }
        assert forall|i: int| 0 <= i < h.len() implies #[trigger] h[i] == {
            let first = texts.len() - h.len();
            record_line((n0 + first + i + 1) as nat, texts[first + i])
        } by {
            let first = texts.len() - h.len();
            let pfirst = texts.len() - 1 - prev.len();
            if i == h.len() - 1 {
                assert(h[i] == last_rec);
            } else if prev.len() + 1 <= limit {
                assert(h[i] == prev[i]);
                assert(texts.drop_last()[pfirst + i] == texts[first + i]);
            } else {
                assert(h[i] == prev[i + 1]);
                assert(texts.drop_last()[pfirst + i + 1] == texts[first + i]);
            }
        }
    }
}

/// The counter and history of the inbound bridge under failure-free store
/// operation: every increment succeeds and every append and trim takes
/// effect.  `processed` records the event texts handled so far.
pub struct InboundState {
    /// The sequence counter; equals the number of events processed.
    pub counter: u64,
    /// The bounded history of records.
    pub history: BoundedHistory,
    /// The rendered texts of the events processed so far, in order.
    pub processed: Ghost<Seq<Seq<char>>>,
}

impl InboundState {
    /// The counter counts the processed events and the history holds
    /// exactly what replaying them yields.
    pub open spec fn wf(self) -> bool {
        &&& self.history.wf()
        &&& self.counter == self.processed@.len()
        &&& self.history.lines() == run_inbound(0, self.processed@, self.history.limit as int)
    }

    /// A fresh bridge state: counter at 0, empty history.
    pub fn new(limit: usize) -> (r: InboundState)
        requires
            limit >= 1,
        ensures
            r.wf(),
            r.counter == 0,
            r.history.limit == limit,
            r.processed@ == Seq::<Seq<char>>::empty(),
    {
        InboundState {
            counter: 0,
            history: BoundedHistory::new(limit),
            processed: Ghost(Seq::empty()),
        }
    }

    /// Records one event: increments the counter, appends the record
    /// `"{counter} {text}"` and trims the history to its limit.
    pub fn record_event(&mut self, text: &str)
        requires
            old(self).wf(),
            old(self).counter < u64::MAX,
        ensures
            final(self).wf(),
            final(self).counter == old(self).counter + 1,
            final(self).history.limit == old(self).history.limit,
            final(self).processed@ == old(self).processed@.push(text@),
            final(self).history.lines() == hist_step(
                old(self).history.lines(),
                old(self).history.limit as int,
                record_line((old(self).counter + 1) as nat, text@),
            ),
    {
        self.counter = self.counter + 1;
        let record = build_record(self.counter, text);
        self.history.append(record);
        proof {
            self.processed@ = self.processed@.push(text@);
            let texts = self.processed@;
            assert(texts.drop_last() =~= old(self).processed@);
            assert(texts.last() == text@);
        }
    }
}

} // verus!
