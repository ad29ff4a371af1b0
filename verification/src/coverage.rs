//! The coverage map: a fixed-length byte array written by the traced
//! execution and read, as an immutable snapshot, by feedback evaluation.

use vstd::prelude::*;

verus! {

/// A fixed-size array of hit markers acting as the observation channel
/// between the traced target and feedback evaluation. The length is fixed
/// at construction; writer and reader share the same length.
pub struct CoverageMap {
    cells: Vec<u8>,
}

impl View for CoverageMap {
    type V = Seq<u8>;

    closed spec fn view(&self) -> Seq<u8> {
        self.cells@
    }
}

impl CoverageMap {
    /// A fresh map of `len` cells, all zero.
    pub fn new(len: usize) -> (r: Self)
        ensures
            r@.len() == len,
            forall|i: int| 0 <= i < len ==> r@[i] == 0u8,
    {
        let mut cells: Vec<u8> = Vec::new();
        let mut i: usize = 0;
        while i < len
            invariant
                i <= len,
                cells@.len() == i,
                forall|j: int| 0 <= j < i ==> cells@[j] == 0u8,
            decreases len - i,
        {
            cells.push(0u8);
            i = i + 1;
        }
        CoverageMap { cells }
    }

    /// Number of cells; fixed for the lifetime of the map.
    pub fn len(&self) -> (r: usize)
        ensures
            r == self@.len(),
    {
        self.cells.len()
    }

    /// Record a hit at `index`: the cell reads 1 from then on, and
    /// recording the same index again changes nothing (the write is
    /// idempotent). Out-of-range indices are a caller contract violation,
    /// not a recoverable error.
    pub fn record(&mut self, index: usize)
        requires
            index < old(self)@.len(),
        ensures
            final(self)@ == old(self)@.update(index as int, 1u8),
    {
        self.cells.set(index, 1u8);
    }

    /// Zero every cell, keeping the length; run before each execution so
    /// that a snapshot reflects only the execution just completed.
    pub fn reset(&mut self)
        ensures
            final(self)@.len() == old(self)@.len(),
            forall|i: int| 0 <= i < final(self)@.len() ==> final(self)@[i] == 0u8,
    {
        let n = self.cells.len();
        let mut i: usize = 0;
        while i < n
            invariant
                i <= n,
                self.cells@.len() == n,
                forall|j: int| 0 <= j < i ==> self.cells@[j] == 0u8,
            decreases n - i,
        {
            self.cells.set(i, 0u8);
            i = i + 1;
        }
    }

    /// A stable read-only copy of the map, taken after one execution and
    /// handed to exactly one round of feedback evaluation.
    pub fn snapshot(&self) -> (s: Vec<u8>)
        ensures
            s@ == self@,
    {
        let n = self.cells.len();
        let mut s: Vec<u8> = Vec::new();
        let mut i: usize = 0;
        while i < n
            invariant
                i <= n,
                n == self.cells@.len(),
                s@ == self.cells@.subrange(0, i as int),
            decreases n - i,
        {
            let v = self.cells[i];
            s.push(v);
            proof {
                assert(s@ =~= self.cells@.subrange(0, i + 1));
            }
            i = i + 1;
        }
        proof {
            assert(s@ =~= self.cells@);
        }
        s
    }
}

} // verus!
