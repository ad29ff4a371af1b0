//! Schedulers: choose the next corpus entry to mutate. The queue policy
//! is a plain round robin over insertion order; the minimizing policy
//! prefers favored entries (smaller inputs with more novel coverage per
//! byte) but still gives every entry a bounded turn.

use vstd::prelude::*;
use vstd::arithmetic::div_mod::{lemma_small_mod, lemma_mod_multiples_vanish};
use crate::corpus::{Corpus, CorpusEntry};

verus! {

/// The id a queue scheduler with the given cursor picks from a corpus of
/// `len` entries: the cursor itself, wrapped to the front when it has run
/// off the end.
pub open spec fn queue_pick(cursor: nat, len: nat) -> nat
    recommends
        len > 0,
{
    if cursor >= len {
        0
    } else {
        cursor
    }
}

/// The id the queue scheduler returns on its `k`-th call after standing at
/// `cursor`, over a corpus whose size stays `len`.
pub open spec fn queue_nth(cursor: nat, len: nat, k: nat) -> nat
    recommends
        len > 0,
{
    (((queue_pick(cursor, len) + k) as int) % (len as int)) as nat
}

/// One call of the queue scheduler advances the round robin: the picks
/// after the first call are the tail of the picks before it.
pub proof fn lemma_queue_step(cursor: nat, len: nat, k: nat)
    requires
        len > 0,
    ensures
        queue_nth(cursor, len, k + 1) == queue_nth(queue_pick(cursor, len) + 1, len, k),
{
    let p = queue_pick(cursor, len);
    if p + 1 < len {
        assert(queue_pick(p + 1, len) == p + 1);
    } else {
        assert(p + 1 == len);
        assert(queue_pick(p + 1, len) == 0);
        lemma_mod_multiples_vanish(1, k as int, len as int);
        assert(((len + k) as int) % (len as int) == (k as int) % (len as int));
    }
}

/// Queue-policy liveness: whatever the cursor stands at, every id of a
/// corpus of `len` entries is returned within `len` calls — no entry is
/// starved.
pub proof fn lemma_queue_liveness(cursor: nat, len: nat, id: nat)
    requires
        len > 0,
        id < len,
    ensures
        exists|k: nat| k < len && queue_nth(cursor, len, k) == id,
{
    let p = queue_pick(cursor, len);
    if id >= p {
        let k = (id - p) as nat;
        lemma_small_mod(id, len);
        assert(queue_nth(cursor, len, k) == id);
        assert(k < len);
    } else {
        let k = (id + len - p) as nat;
        lemma_mod_multiples_vanish(1, id as int, len as int);
        lemma_small_mod(id, len);
        assert(queue_nth(cursor, len, k) == id);
        assert(k < len);
    }
}

/// Round robin over all entries in insertion order, wrapping. An entry
/// added at the corpus tail is eligible as soon as the cursor reaches it,
/// with no startup delay.
pub struct QueueScheduler {
    /// Next position to hand out; wraps to the front when past the end.
    pub cursor: usize,
}

impl QueueScheduler {
    /// Start at the front of the corpus.
    pub fn new() -> (r: Self)
        ensures
            r.cursor == 0usize,
    {
        QueueScheduler { cursor: 0 }
    }

    /// Hear of a newly added entry. The round robin wraps over the live
    /// corpus size on every call, so a tail entry needs no bookkeeping to
    /// become eligible.
    pub fn on_add(&mut self, corpus_len: usize)
        ensures
            *final(self) == *old(self),
    {
    }

    /// The next entry to mutate, in insertion order, wrapping.
    pub fn next(&mut self, corpus_len: usize) -> (id: usize)
        requires
            corpus_len > 0,
        ensures
            id == queue_pick(old(self).cursor as nat, corpus_len as nat),
            id < corpus_len,
            final(self).cursor == id + 1,
    {
        if self.cursor >= corpus_len {
            self.cursor = 0;
        }
        let id = self.cursor;
        self.cursor = self.cursor + 1;
        id
    }
}

/// How many round-robin turns pass between the full passes in which the
/// minimizing policy visits non-favored entries too.
pub const FULL_PASS_PERIOD: u64 = 16;

/// True iff some entry of the corpus is favored.
pub open spec fn has_favored(entries: Seq<CorpusEntry>) -> bool {
    exists|i: int| 0 <= i < entries.len() && entries[i].favored
}

/// Weighted round robin approximating a size/time-minimizing policy:
/// favored entries are scheduled on every turn, while the remaining
/// entries get a turn once every `FULL_PASS_PERIOD` rounds, so none is
/// permanently starved.
pub struct MinimizingScheduler {
    /// The underlying round robin.
    pub queue: QueueScheduler,
    /// Completed turns, deciding when a full pass is due.
    pub turns: u64,
}

impl MinimizingScheduler {
    pub fn new() -> (r: Self)
        ensures
            r.queue.cursor == 0usize,
            r.turns == 0u64,
    {
        MinimizingScheduler { queue: QueueScheduler::new(), turns: 0 }
    }

    /// Hear of a newly added entry: mark it favored exactly when it earns
    /// some novel coverage and at least one novel map index per 64 bytes
    /// of input (a monotonic preference for small, high-coverage
    /// entries).
    pub fn on_add(&mut self, corpus: &mut Corpus, id: usize, novelty: u64)
        requires
            id < old(corpus)@.len(),
        ensures
            *final(self) == *old(self),
            final(corpus)@ == old(corpus)@.update(
                id as int,
                CorpusEntry {
                    favored: novelty > 0 && novelty >= old(corpus)@[
                        id as int
                    ].input@.len() / 64,
                    ..old(corpus)@[id as int]
                },
            ),
    {
        let threshold = corpus.get(id).input.len() / 64;
        let f = novelty > 0 && novelty >= threshold as u64;
        corpus.set_favored(id, f);
    }

    /// The next entry to mutate: the round robin's pick on a full pass or
    /// when nothing is favored; otherwise the first favored entry at or
    /// after the pick, wrapping.
    pub fn next(&mut self, corpus: &Corpus) -> (id: usize)
        requires
            corpus@.len() > 0,
        ensures
            id < corpus@.len(),
            old(self).turns % FULL_PASS_PERIOD != 0 && has_favored(corpus@)
                ==> corpus@[id as int].favored,
            old(self).turns % FULL_PASS_PERIOD == 0 ==> id == queue_pick(
                old(self).queue.cursor as nat,
                corpus@.len() as nat,
            ),
            final(self).turns == if old(self).turns == u64::MAX {
                0u64
            } else {
                (old(self).turns + 1) as u64
            },
            final(self).queue.cursor == queue_pick(
                old(self).queue.cursor as nat,
                corpus@.len() as nat,
            ) + 1,
    {
        let len = corpus.count();
        let base = self.queue.next(len);
        let full_pass = self.turns % FULL_PASS_PERIOD == 0;
        if self.turns == u64::MAX {
            self.turns = 0;
        } else {
            self.turns = self.turns + 1;
        }
        if full_pass {
            // A full pass: every entry, favored or not, gets this turn.
            return base;
        }
        match find_favored(corpus, base) {
            Some(fav) => fav,
            None => base,
        }
    }
}

/// The first favored entry at or after `start`, wrapping; `None` exactly
/// when no entry of the corpus is favored.
pub fn find_favored(corpus: &Corpus, start: usize) -> (r: Option<usize>)
    requires
        corpus@.len() > 0,
        start < corpus@.len(),
    ensures
        match r {
            Some(id) => id < corpus@.len() && corpus@[id as int].favored && (if id >= start {
                forall|t: int| start <= t < id ==> !corpus@[t].favored
            } else {
                (forall|t: int| start <= t < corpus@.len() ==> !corpus@[t].favored)
                    && (forall|t: int| 0 <= t < id ==> !corpus@[t].favored)
            }),
            None => !has_favored(corpus@),
        },
{
    let len = corpus.count();
    let mut i: usize = start;
    while i < len
        invariant
            start <= i <= len,
            len == corpus@.len(),
            forall|j: int| start <= j < i ==> !corpus@[j].favored,
        decreases len - i,
    {
        if corpus.get(i).favored {
            return Some(i);
        }
        i = i + 1;
    }
    let mut j: usize = 0;
    while j < start
        invariant
            j <= start,
            start < len,
            len == corpus@.len(),
            forall|t: int| start <= t < len ==> !corpus@[t].favored,
            forall|t: int| 0 <= t < j ==> !corpus@[t].favored,
        decreases start - j,
    {
        if corpus.get(j).favored {
            return Some(j);
        }
        j = j + 1;
    }
    None
}

} // verus!
