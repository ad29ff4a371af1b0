//! Core of a coverage-guided fuzzer: a coverage map observed after each
//! target execution, feedbacks that decide which inputs are worth keeping,
//! corpora of retained inputs, schedulers that pick the next entry to
//! mutate, two execution backends (in-process and forkserver protocol),
//! the central fuzzing loop, and the broker/launcher coordination logic.

use vstd::prelude::*;
use vstd::string::StrSliceExecFns;

pub mod corpus;
pub mod coverage;
pub mod event;
pub mod executor;
pub mod feedback;
pub mod forkserver;
pub mod fuzzer;
pub mod generate;
pub mod schedule;

verus! {

/// Tagged outcome of one target execution; consumed immediately by the
/// feedbacks and never stored.
#[derive(Clone, Copy, PartialEq, Eq, Structural, Debug)]
pub enum ExecutionResult {
    /// The target returned normally.
    Normal,
    /// The target crashed (fault, abnormal exit, or signal).
    Crash,
    /// The execution was aborted by the timeout guard.
    Timeout,
}

/// Error taxonomy of the core. Target crashes and timeouts are data, not
/// errors: they never appear here.
#[derive(Clone, Copy, PartialEq, Eq, Structural, Debug)]
pub enum FuzzError {
    /// A configuration string could not be parsed.
    IllegalArgument,
    /// The executor lost synchronization with its backend; fatal for the
    /// owning client's loop.
    ExecutorProtocol,
    /// A durable corpus write failed; fatal on the solutions path.
    CorpusIo,
    /// A child process could not be spawned; fatal.
    Spawn,
    /// Graceful stop requested; not a failure.
    ShuttingDown,
}

/// True iff `c` is an ASCII decimal digit.
pub open spec fn is_dec_digit(c: char) -> bool {
    48 <= c as u32 <= 57
}

/// Numeric value of a decimal digit character.
pub open spec fn digit_val(c: char) -> nat {
    (c as u32 - 48) as nat
}

/// True iff every character of `s` is an ASCII decimal digit.
pub open spec fn all_dec_digits(s: Seq<char>) -> bool {
    forall|i: int| 0 <= i < s.len() ==> is_dec_digit(s[i])
}

/// Value of `s` read as a base-10 numeral.
pub open spec fn dec_val(s: Seq<char>) -> nat
    decreases s.len(),
{
    if s.len() == 0 {
        0
    } else {
        dec_val(s.drop_last()) * 10 + digit_val(s.last())
    }
}

/// Reading one more digit never decreases the numeral's value: the value of
/// the whole string dominates the value of any of its prefixes.
pub proof fn lemma_dec_val_prefix(s: Seq<char>, i: int)
    requires
        0 <= i <= s.len(),
    ensures
        dec_val(s) >= dec_val(s.subrange(0, i)),
    decreases s.len() - i,
{
    if i < s.len() {
        lemma_dec_val_step(s, i);
        lemma_dec_val_prefix(s, i + 1);
    } else {
        assert(s.subrange(0, i) =~= s);
    }
}

/// Unfolding: the prefix of length `i + 1` is the prefix of length `i`
/// shifted one decimal place with the digit at `i` appended.
pub proof fn lemma_dec_val_step(s: Seq<char>, i: int)
    requires
        0 <= i < s.len(),
    ensures
        dec_val(s.subrange(0, i + 1)) == dec_val(s.subrange(0, i)) * 10 + digit_val(s[i]),
{
    assert(s.subrange(0, i + 1).drop_last() =~= s.subrange(0, i));
    assert(s.subrange(0, i + 1).last() == s[i]);
}

/// The numeral part of the string: what is left after an optional single
/// leading plus sign.
pub open spec fn numeral_of(s: Seq<char>) -> Seq<char> {
    if s.len() > 0 && s[0] == '+' {
        s.subrange(1, s.len() as int)
    } else {
        s
    }
}

/// Parse a millisecond count from its decimal string form; used when the
/// execution timeout is configured from a textual option.
///
/// Returns `Ok` exactly when, after an optional leading `+`, a non-empty
/// all-digit numeral remains whose value fits in a `u64`, and then
/// returns that value.
pub fn timeout_from_millis_str(time: &str) -> (r: Result<u64, FuzzError>)
    ensures
        match r {
            Result::Ok(ms) => numeral_of(time@).len() > 0 && all_dec_digits(numeral_of(time@))
                && dec_val(numeral_of(time@)) <= u64::MAX && ms == dec_val(numeral_of(time@)),
            Result::Err(e) => e == FuzzError::IllegalArgument && (numeral_of(time@).len() == 0
                || !all_dec_digits(numeral_of(time@)) || dec_val(numeral_of(time@)) > u64::MAX),
        },
{
    let n = time.unicode_len();
    let start: usize = if n > 0 && time.get_char(0) == '+' {
        1
    } else {
        0
    };
    let ghost num = numeral_of(time@);
    proof {
        assert(num =~= time@.subrange(start as int, n as int));
    }
    if n == start {
        return Err(FuzzError::IllegalArgument);
    }
    let mut acc: u64 = 0;
    let mut i: usize = start;
    while i < n
        invariant
            start <= i <= n,
            n == time@.len(),
            num == time@.subrange(start as int, n as int),
            num == numeral_of(time@),
            all_dec_digits(num.subrange(0, i - start)),
            acc == dec_val(num.subrange(0, i - start)),
        decreases n - i,
    {
        let c = time.get_char(i);
        let cv = c as u32;
        proof {
            assert(num[i - start] == time@[i as int]);
        }
        if cv < 48 || cv > 57 {
            assert(!is_dec_digit(num[i - start]));
            return Err(FuzzError::IllegalArgument);
        }
        let d: u64 = (cv - 48) as u64;
        proof {
            lemma_dec_val_step(num, i - start);
        }
        if acc > (u64::MAX - d) / 10 {
            proof {
                let bound = (u64::MAX - d) as int;
                assert(bound == (bound / 10) * 10 + bound % 10) by (nonlinear_arith);
                assert(bound % 10 <= 9) by (nonlinear_arith)
                    requires bound >= 0;
                assert(acc * 10 >= (bound / 10 + 1) * 10) by (nonlinear_arith)
                    requires acc >= bound / 10 + 1;
                assert(dec_val(num.subrange(0, i - start + 1)) > u64::MAX);
                lemma_dec_val_prefix(num, i - start + 1);
            }
            return Err(FuzzError::IllegalArgument);
        }
        proof {
            let bound = (u64::MAX - d) as int;
            assert(acc * 10 <= (bound / 10) * 10) by (nonlinear_arith)
                requires acc <= bound / 10;
            assert(bound == (bound / 10) * 10 + bound % 10) by (nonlinear_arith);
            assert(bound % 10 >= 0) by (nonlinear_arith)
                requires bound >= 0;
        }
        acc = acc * 10 + d;
        i = i + 1;
    }
    proof {
        assert(num.subrange(0, n - start) =~= num);
    }
    Ok(acc)
}

} // verus!
