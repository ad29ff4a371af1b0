//! Corpora: the retained inputs driving future mutation. Each client owns
//! two independently-lifetimed corpora: the evolving corpus (memory
//! resident) and the solutions corpus, whose durable persistence is the
//! caller's concern.

use vstd::prelude::*;

verus! {

/// Saturating increment of a 64-bit counter.
pub open spec fn sat_inc64(v: u64) -> u64 {
    if v == u64::MAX {
        v
    } else {
        (v + 1) as u64
    }
}

/// Saturating sum of two 64-bit counters.
pub open spec fn sat_add64(a: u64, b: u64) -> u64 {
    if a + b <= u64::MAX {
        (a + b) as u64
    } else {
        u64::MAX
    }
}

/// One retained input with its metadata. Owned exclusively by its corpus
/// and referenced by index from the scheduler, never duplicated.
pub struct CorpusEntry {
    /// The input bytes; immutable once stored.
    pub input: Vec<u8>,
    /// Whether the scheduler should prefer this entry.
    pub favored: bool,
    /// How many times this entry has been scheduled for mutation.
    pub exec_count: u64,
    /// When the entry was discovered, in milliseconds of run time.
    pub discovery_ms: u64,
}

impl CorpusEntry {
    /// A fresh, not yet favored entry around `input`.
    pub fn new(input: Vec<u8>, discovery_ms: u64) -> (r: Self)
        ensures
            r.input@ == input@,
            r.favored == false,
            r.exec_count == 0u64,
            r.discovery_ms == discovery_ms,
    {
        CorpusEntry { input, favored: false, exec_count: 0, discovery_ms }
    }
}

/// An append-only set of retained inputs, addressed by the index that
/// `add` returned.
pub struct Corpus {
    entries: Vec<CorpusEntry>,
}

impl View for Corpus {
    type V = Seq<CorpusEntry>;

    closed spec fn view(&self) -> Seq<CorpusEntry> {
        self.entries@
    }
}

impl Corpus {
    /// An empty corpus.
    pub fn new() -> (r: Self)
        ensures
            r@.len() == 0,
    {
        Corpus { entries: Vec::new() }
    }

    /// Number of retained entries.
    pub fn count(&self) -> (r: usize)
        ensures
            r == self@.len(),
    {
        self.entries.len()
    }

    /// Retain one entry; its id is its position, stable forever after.
    pub fn add(&mut self, e: CorpusEntry) -> (id: usize)
        ensures
            final(self)@ == old(self)@.push(e),
            id == old(self)@.len(),
    {
        let id = self.entries.len();
        self.entries.push(e);
        id
    }

    /// Borrow the entry with the given id.
    pub fn get(&self, id: usize) -> (r: &CorpusEntry)
        requires
            id < self@.len(),
        ensures
            *r == self@[id as int],
    {
        &self.entries[id]
    }

    /// Mark or unmark an entry as favored; everything else is unchanged.
    pub fn set_favored(&mut self, id: usize, f: bool)
        requires
            id < old(self)@.len(),
        ensures
            final(self)@ == old(self)@.update(
                id as int,
                CorpusEntry { favored: f, ..old(self)@[id as int] },
            ),
    {
        let e = &mut self.entries[id];
        e.favored = f;
    }

    /// Count one more scheduling of the entry; everything else is
    /// unchanged.
    pub fn mark_executed(&mut self, id: usize)
        requires
            id < old(self)@.len(),
        ensures
            final(self)@ == old(self)@.update(
                id as int,
                CorpusEntry {
                    exec_count: sat_inc64(old(self)@[id as int].exec_count),
                    ..old(self)@[id as int]
                },
            ),
    {
        let e = &mut self.entries[id];
        if e.exec_count < u64::MAX {
            e.exec_count = e.exec_count + 1;
        }
    }
}

} // verus!
