//! The in-process execution backend: invokes the user-supplied harness
//! directly, converting a harness fault into a `Crash` value instead of
//! unwinding, so the fuzzer process stays alive; optionally wrapped with a
//! timeout guard that retags over-budget executions.

use vstd::prelude::*;
use crate::coverage::CoverageMap;
use crate::{ExecutionResult, FuzzError};

verus! {

/// What one harness invocation reported: a normal return, or a fault
/// (crash-class failure) captured as a value.
#[derive(Clone, Copy, PartialEq, Eq, Structural, Debug)]
pub enum HarnessOutcome {
    Returned,
    Faulted,
}

/// The user-supplied target function: runs the target logic against one
/// input, records coverage into the map, and reports a fault as a value
/// rather than terminating the process. It must be safe to invoke
/// repeatedly and must not retain the input past return. The second
/// result is the invocation's duration in milliseconds.
pub trait Harness {
    fn run_harness(&mut self, input: &Vec<u8>, map: &mut CoverageMap) -> (HarnessOutcome, u64);
}

/// Everything one execution produced: the tagged result, its duration,
/// and a stable snapshot of the coverage map taken after the execution.
pub struct RunOutcome {
    pub result: ExecutionResult,
    pub elapsed_ms: u64,
    pub snapshot: Vec<u8>,
}

/// Executes the harness in the fuzzer's own process against an owned
/// coverage map of fixed length.
pub struct InProcessExecutor<H: Harness> {
    /// The user-supplied target.
    pub harness: H,
    /// The observation channel, reset before every execution.
    pub map: CoverageMap,
    /// The map length fixed at construction.
    pub map_len: usize,
    /// What the most recent harness invocation reported.
    pub last_outcome: Ghost<HarnessOutcome>,
    /// The length of the map the most recent harness invocation left
    /// behind; anything but `map_len` is a broken channel.
    pub last_harness_len: Ghost<nat>,
    /// How many times the harness has been invoked.
    pub runs: Ghost<nat>,
}

impl<H: Harness> InProcessExecutor<H> {
    /// The map keeps the length fixed at construction.
    pub open spec fn wf(&self) -> bool {
        self.map@.len() == self.map_len
    }

    pub fn new(harness: H, map_len: usize) -> (r: Self)
        ensures
            r.wf(),
            r.map_len == map_len,
            r.runs@ == 0,
    {
        InProcessExecutor {
            harness,
            map: CoverageMap::new(map_len),
            map_len,
            last_outcome: Ghost(HarnessOutcome::Returned),
            last_harness_len: Ghost(map_len as nat),
            runs: Ghost(0nat),
        }
    }

    /// Run the harness once on `input`. The map is reset before the
    /// harness writes, so the returned snapshot reflects only this
    /// execution. A harness fault yields `Crash` — never `Timeout`, and
    /// never a dead process: the executor stays well-formed and ready for
    /// the next call. The error occurs exactly when the harness broke
    /// the observation channel itself (a length change), a fatal
    /// protocol violation, not a target crash; the channel is then
    /// restored to a clean map.
    pub fn run(&mut self, input: &Vec<u8>) -> (r: Result<RunOutcome, FuzzError>)
        requires
            old(self).wf(),
        ensures
            final(self).wf(),
            final(self).map_len == old(self).map_len,
            final(self).runs@ == old(self).runs@ + 1,
            match r {
                Result::Ok(out) => {
                    &&& final(self).last_harness_len@ == old(self).map_len
                    &&& (out.result is Crash <==> final(self).last_outcome@ is Faulted)
                    &&& !(out.result is Timeout)
                    &&& out.snapshot@ == final(self).map@
                    &&& out.snapshot@.len() == old(self).map_len
                },
                Result::Err(e) => {
                    &&& e == FuzzError::ExecutorProtocol
                    &&& final(self).last_harness_len@ != old(self).map_len
                    &&& final(self).map@ == Seq::new(old(self).map_len as nat, |i: int| 0u8)
                },
            },
    {
        self.map.reset();
        let (outcome, elapsed) = self.harness.run_harness(input, &mut self.map);
        self.last_outcome = Ghost(outcome);
        proof {
            self.runs@ = self.runs@ + 1;
            self.last_harness_len@ = self.map@.len();
        }
        if self.map.len() != self.map_len {
            // The harness violated its contract and replaced the channel:
            // restore a clean map and surface the fatal protocol error.
            self.map = CoverageMap::new(self.map_len);
            proof {
                assert(self.map@ =~= Seq::new(self.map_len as nat, |i: int| 0u8));
            }
            return Err(FuzzError::ExecutorProtocol);
        }
        let result = match outcome {
            HarnessOutcome::Returned => ExecutionResult::Normal,
            HarnessOutcome::Faulted => ExecutionResult::Crash,
        };
        let snapshot = self.map.snapshot();
        Ok(RunOutcome { result, elapsed_ms: elapsed, snapshot })
    }
}

/// The result after the timeout guard has ruled: expiry beats whatever
/// the aborted call would have reported.
pub open spec fn timed_result(o: HarnessOutcome, elapsed_ms: u64, budget_ms: u64)
    -> ExecutionResult {
    if elapsed_ms > budget_ms {
        ExecutionResult::Timeout
    } else if o is Faulted {
        ExecutionResult::Crash
    } else {
        ExecutionResult::Normal
    }
}

/// Timeout guard around the in-process executor: an execution that ran
/// past the budget is returned as `Timeout`, never as a fatal error.
pub struct TimedExecutor<H: Harness> {
    pub inner: InProcessExecutor<H>,
    /// The execution time budget, in milliseconds.
    pub budget_ms: u64,
}

impl<H: Harness> TimedExecutor<H> {
    pub fn new(inner: InProcessExecutor<H>, budget_ms: u64) -> (r: Self)
        ensures
            r.inner == inner,
            r.budget_ms == budget_ms,
    {
        TimedExecutor { inner, budget_ms }
    }

    /// Run once under the time budget. The result is exactly
    /// `timed_result`: over-budget executions are retagged `Timeout`;
    /// within budget, a fault is a `Crash` and a return is `Normal`. The
    /// inner executor resets the map before each execution, so the abort
    /// path leaves nothing behind that could corrupt the next run.
    pub fn run(&mut self, input: &Vec<u8>) -> (r: Result<RunOutcome, FuzzError>)
        requires
            old(self).inner.wf(),
        ensures
            final(self).inner.wf(),
            final(self).inner.map_len == old(self).inner.map_len,
            final(self).budget_ms == old(self).budget_ms,
            final(self).inner.runs@ == old(self).inner.runs@ + 1,
            match r {
                Result::Ok(out) => {
                    &&& final(self).inner.last_harness_len@ == old(self).inner.map_len
                    &&& out.result == timed_result(
                        final(self).inner.last_outcome@,
                        out.elapsed_ms,
                        old(self).budget_ms,
                    )
                    &&& out.snapshot@ == final(self).inner.map@
                    &&& out.snapshot@.len() == old(self).inner.map_len
                },
                Result::Err(e) => {
                    &&& e == FuzzError::ExecutorProtocol
                    &&& final(self).inner.last_harness_len@ != old(self).inner.map_len
                },
            },
    {
        let out = match self.inner.run(input) {
            Ok(out) => out,
            Err(e) => {
                return Err(e);
            },
        };
        if out.elapsed_ms > self.budget_ms {
            return Ok(RunOutcome { result: ExecutionResult::Timeout, ..out });
        }
        Ok(out)
    }
}

} // verus!
