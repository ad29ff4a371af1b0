//! Generation of initial inputs: maps externally supplied raw bytes
//! (randomness is the caller's concern) onto printable byte strings of a
//! bounded length, used to seed an empty corpus.

use vstd::prelude::*;

verus! {

/// True iff `b` is a printable ASCII byte.
pub open spec fn printable(b: u8) -> bool {
    32 <= b <= 126
}

/// The printable byte a raw byte is mapped onto.
pub open spec fn to_printable(b: u8) -> u8 {
    (32 + (b % 95)) as u8
}

/// Turn raw bytes into a printable input of at most `max_len` bytes:
/// byte-for-byte over the raw prefix that fits, every output byte
/// printable.
pub fn generate_printable(raw: &Vec<u8>, max_len: usize) -> (out: Vec<u8>)
    ensures
        out@.len() == if raw@.len() <= max_len {
            raw@.len()
        } else {
            max_len as nat
        },
        forall|i: int| 0 <= i < out@.len() ==> out@[i] == to_printable(raw@[i]),
        forall|i: int| 0 <= i < out@.len() ==> printable(out@[i]),
{
    let n = if raw.len() <= max_len {
        raw.len()
    } else {
        max_len
    };
    let mut out: Vec<u8> = Vec::new();
    let mut i: usize = 0;
    while i < n
        invariant
            i <= n,
            n <= raw@.len(),
            out@.len() == i,
            forall|j: int| 0 <= j < i ==> out@[j] == to_printable(raw@[j]),
            forall|j: int| 0 <= j < i ==> printable(out@[j]),
        decreases n - i,
    {
        let b = raw[i];
        out.push(32 + (b % 95));
        i = i + 1;
    }
    out
}

} // verus!
