//! The bounded history list.
//!
//! Inbound event records are appended to an insertion-ordered list that is
//! trimmed after every append so that only the newest `limit` entries
//! survive.  `BoundedHistory` models that list; `hist_step` is the
//! mathematical append-and-trim step that both the model and the store-side
//! push/trim command pair implement.

use vstd::prelude::*;

verus! {

/// One append-and-trim step: `line` becomes the newest entry and only the
/// newest `limit` entries are retained.
pub open spec fn hist_step(h: Seq<Seq<char>>, limit: int, line: Seq<char>) -> Seq<Seq<char>> {
    let pushed = h.push(line);
    if pushed.len() <= limit {
        pushed
    } else {
        pushed.subrange(pushed.len() - limit, pushed.len() as int)
    }
}

/// Appending to a list already holding exactly `limit` entries evicts
/// exactly the oldest entry: the result is the old list without its first
/// element, with the new line at the tail.
pub proof fn lemma_full_append_evicts_oldest(h: Seq<Seq<char>>, limit: int, line: Seq<char>)
    requires
        limit >= 1,
        h.len() == limit,
    ensures
        hist_step(h, limit, line) == h.subrange(1, h.len() as int).push(line),
{
    assert(hist_step(h, limit, line) =~= h.subrange(1, h.len() as int).push(line));
}

/// An insertion-ordered list of event records holding at most `limit`
/// entries, oldest first.
pub struct BoundedHistory {
    /// The retained records, oldest first.
    pub entries: Vec<String>,
    /// The retention limit; at least 1.
    pub limit: usize,
}

impl BoundedHistory {
    /// The history never outgrows its limit.
    pub open spec fn wf(self) -> bool {
        &&& self.limit >= 1
        &&& self.entries@.len() <= self.limit
    }

    /// The retained records as character sequences, oldest first.
    pub open spec fn lines(self) -> Seq<Seq<char>> {
        self.entries@.map_values(|s: String| s@)
    }

    /// An empty history with the given retention limit.
    pub fn new(limit: usize) -> (r: BoundedHistory)
        requires
            limit >= 1,
        ensures
            r.wf(),
            r.limit == limit,
            r.lines() == Seq::<Seq<char>>::empty(),
    {
        let r = BoundedHistory { entries: Vec::new(), limit };
        proof {
            assert(r.lines() =~= Seq::<Seq<char>>::empty());
        }
        r
    }

    /// Appends a record and trims back to the limit, evicting the oldest
    /// entry when the history is already full.
    pub fn append(&mut self, line: String)
        requires
            old(self).wf(),
        ensures
            final(self).wf(),
            final(self).limit == old(self).limit,
            final(self).lines() == hist_step(old(self).lines(), old(self).limit as int, line@),
    {
        if self.entries.len() == self.limit {
            self.entries.remove(0);
        }
        self.entries.push(line);
        proof {
            assert(final(self).lines() =~= hist_step(
                old(self).lines(),
                old(self).limit as int,
                line@,
            ));
        }
    }
}

} // verus!
