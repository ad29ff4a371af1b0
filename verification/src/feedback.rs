//! Feedbacks: policies that decide, from one execution's observation,
//! whether the execution is interesting (novel coverage, timing) or a
//! solution (crash). Composable through explicit And/Or combinators whose
//! side effects are always applied to every part before combining.

use vstd::prelude::*;
use crate::ExecutionResult;

verus! {

/// True iff the snapshot beats the best-seen state at some index.
pub open spec fn improves(state: Seq<u8>, snap: Seq<u8>) -> bool {
    exists|i: int| 0 <= i < snap.len() && snap[i] > state[i]
}

/// Pointwise maximum of the best-seen state and a snapshot.
pub open spec fn merged(state: Seq<u8>, snap: Seq<u8>) -> Seq<u8> {
    Seq::new(state.len(), |i: int| if snap[i] > state[i] { snap[i] } else { state[i] })
}

/// Coverage accumulation is monotonic: merging a snapshot into the
/// best-seen state never decreases any cell.
pub proof fn lemma_merged_monotonic(state: Seq<u8>, snap: Seq<u8>)
    requires
        state.len() == snap.len(),
    ensures
        merged(state, snap).len() == state.len(),
        forall|i: int| 0 <= i < state.len() ==> merged(state, snap)[i] >= state[i],
{
}

/// No duplicate credit: once a snapshot has been merged into the state,
/// the same snapshot no longer improves anything, so a second evaluation
/// without an intervening execution reports not interesting.
pub proof fn lemma_no_duplicate_credit(state: Seq<u8>, snap: Seq<u8>)
    requires
        state.len() == snap.len(),
    ensures
        !improves(merged(state, snap), snap),
{
    assert forall|i: int| 0 <= i < snap.len() implies !(snap[i] > merged(state, snap)[i]) by {
        assert(merged(state, snap)[i] >= snap[i]);
    }
}

/// Maximization feedback over the coverage map: keeps, per index, the best
/// value seen across the whole run, and reports interesting exactly when
/// some index improves.
pub struct MapFeedback {
    state: Vec<u8>,
}

impl View for MapFeedback {
    type V = Seq<u8>;

    closed spec fn view(&self) -> Seq<u8> {
        self.state@
    }
}

impl MapFeedback {
    /// Fresh state sized to the coverage map, nothing seen yet.
    pub fn new(map_len: usize) -> (r: Self)
        ensures
            r@.len() == map_len,
            forall|i: int| 0 <= i < map_len ==> r@[i] == 0u8,
    {
        let mut state: Vec<u8> = Vec::new();
        let mut i: usize = 0;
        while i < map_len
            invariant
                i <= map_len,
                state@.len() == i,
                forall|j: int| 0 <= j < i ==> state@[j] == 0u8,
            decreases map_len - i,
        {
            state.push(0u8);
            i = i + 1;
        }
        MapFeedback { state }
    }

    /// Length of the best-seen state; equals the map length.
    pub fn len(&self) -> (r: usize)
        ensures
            r == self@.len(),
    {
        self.state.len()
    }

    /// The best value seen so far at one index.
    pub fn state_at(&self, i: usize) -> (r: u8)
        requires
            i < self@.len(),
        ensures
            r == self@[i as int],
    {
        self.state[i]
    }

    /// Fold one snapshot into the best-seen state. Returns true iff at
    /// least one index improved; every improving index is recorded, and no
    /// cell ever decreases.
    pub fn is_interesting(&mut self, snap: &Vec<u8>) -> (r: bool)
        requires
            old(self)@.len() == snap@.len(),
        ensures
            final(self)@ == merged(old(self)@, snap@),
            r == improves(old(self)@, snap@),
            forall|i: int| 0 <= i < old(self)@.len() ==> final(self)@[i] >= old(self)@[i],
    {
        let ghost pre = self.state@;
        let n = self.state.len();
        let mut found = false;
        let mut i: usize = 0;
        while i < n
            invariant
                i <= n,
                n == pre.len(),
                snap@.len() == n,
                self.state@.len() == n,
                forall|j: int| 0 <= j < i ==> self.state@[j] == merged(pre, snap@)[j],
                forall|j: int| i <= j < n ==> self.state@[j] == pre[j],
                found == exists|j: int| 0 <= j < i && snap@[j] > pre[j],
            decreases n - i,
        {
            let v = self.state[i];
            let s = snap[i];
            if s > v {
                self.state.set(i, s);
                found = true;
                proof {
                    assert(snap@[i as int] > pre[i as int]);
                }
            }
            i = i + 1;
        }
        proof {
            assert(self.state@ =~= merged(pre, snap@));
        }
        found
    }
}

/// Objective feedback that ignores the map: an execution is a solution
/// exactly when its result is a crash.
pub struct CrashFeedback {}

impl CrashFeedback {
    pub fn new() -> (r: Self) {
        CrashFeedback {  }
    }

    /// True iff the execution crashed; no state is kept.
    pub fn is_interesting(&self, result: ExecutionResult) -> (r: bool)
        ensures
            r == (result is Crash),
    {
        match result {
            ExecutionResult::Crash => true,
            _ => false,
        }
    }
}

/// Timing feedback: records the last observed execution time and never by
/// itself marks an input interesting.
pub struct TimeFeedback {
    /// Duration of the last observed execution, in milliseconds.
    pub last_ms: u64,
}

impl TimeFeedback {
    pub fn new() -> (r: Self)
        ensures
            r.last_ms == 0u64,
    {
        TimeFeedback { last_ms: 0 }
    }

    /// Record the elapsed time of the execution just observed.
    pub fn is_interesting(&mut self, elapsed_ms: u64) -> (r: bool)
        ensures
            final(self).last_ms == elapsed_ms,
            r == false,
    {
        self.last_ms = elapsed_ms;
        false
    }
}

/// The closed set of leaf feedbacks.
pub enum LeafFeedback {
    MaxMap(MapFeedback),
    Crash(CrashFeedback),
    Time(TimeFeedback),
}

/// Well-formedness of a leaf against the shared map length.
pub open spec fn leaf_wf(f: LeafFeedback, map_len: nat) -> bool {
    match f {
        LeafFeedback::MaxMap(m) => m@.len() == map_len,
        LeafFeedback::Crash(_) => true,
        LeafFeedback::Time(_) => true,
    }
}

/// What a leaf reports of one execution, before its state is updated.
pub open spec fn leaf_interest(f: LeafFeedback, result: ExecutionResult, snap: Seq<u8>) -> bool {
    match f {
        LeafFeedback::MaxMap(m) => improves(m@, snap),
        LeafFeedback::Crash(_) => result is Crash,
        LeafFeedback::Time(_) => false,
    }
}

/// How one evaluation evolves a leaf's state: same variant, with the map
/// state merged and the last time recorded.
pub open spec fn leaf_evolved(
    pre: LeafFeedback,
    post: LeafFeedback,
    snap: Seq<u8>,
    elapsed_ms: u64,
) -> bool {
    match (pre, post) {
        (LeafFeedback::MaxMap(m0), LeafFeedback::MaxMap(m1)) => m1@ == merged(m0@, snap),
        (LeafFeedback::Crash(_), LeafFeedback::Crash(_)) => true,
        (LeafFeedback::Time(_), LeafFeedback::Time(t1)) => t1.last_ms == elapsed_ms,
        _ => false,
    }
}

impl LeafFeedback {
    /// Evaluate one execution against this leaf, updating its state.
    pub fn is_interesting(&mut self, result: ExecutionResult, snap: &Vec<u8>, elapsed_ms: u64)
        -> (r: bool)
        requires
            leaf_wf(*old(self), snap@.len()),
        ensures
            r == leaf_interest(*old(self), result, snap@),
            leaf_evolved(*old(self), *final(self), snap@, elapsed_ms),
            leaf_wf(*final(self), snap@.len()),
    {
        match self {
            LeafFeedback::MaxMap(m) => m.is_interesting(snap),
            LeafFeedback::Crash(c) => c.is_interesting(result),
            LeafFeedback::Time(t) => t.is_interesting(elapsed_ms),
        }
    }
}

/// A feedback: a single leaf, or two leaves under an explicit combinator.
/// And is for objectives ("a crash, and novel crash coverage"); Or is for
/// interest ("novel coverage, or notable timing").
pub enum Feedback {
    Leaf(LeafFeedback),
    And(LeafFeedback, LeafFeedback),
    Or(LeafFeedback, LeafFeedback),
}

/// Well-formedness of every leaf of the feedback.
pub open spec fn feedback_wf(f: Feedback, map_len: nat) -> bool {
    match f {
        Feedback::Leaf(a) => leaf_wf(a, map_len),
        Feedback::And(a, b) => leaf_wf(a, map_len) && leaf_wf(b, map_len),
        Feedback::Or(a, b) => leaf_wf(a, map_len) && leaf_wf(b, map_len),
    }
}

/// What the composed feedback reports of one execution.
pub open spec fn feedback_interest(f: Feedback, result: ExecutionResult, snap: Seq<u8>) -> bool {
    match f {
        Feedback::Leaf(a) => leaf_interest(a, result, snap),
        Feedback::And(a, b) => leaf_interest(a, result, snap) && leaf_interest(b, result, snap),
        Feedback::Or(a, b) => leaf_interest(a, result, snap) || leaf_interest(b, result, snap),
    }
}

/// How one evaluation evolves the composed feedback: every part's state is
/// updated, whatever the other parts reported.
pub open spec fn feedback_evolved(
    pre: Feedback,
    post: Feedback,
    snap: Seq<u8>,
    elapsed_ms: u64,
) -> bool {
    match (pre, post) {
        (Feedback::Leaf(a0), Feedback::Leaf(a1)) => leaf_evolved(a0, a1, snap, elapsed_ms),
        (Feedback::And(a0, b0), Feedback::And(a1, b1)) => leaf_evolved(a0, a1, snap, elapsed_ms)
            && leaf_evolved(b0, b1, snap, elapsed_ms),
        (Feedback::Or(a0, b0), Feedback::Or(a1, b1)) => leaf_evolved(a0, a1, snap, elapsed_ms)
            && leaf_evolved(b0, b1, snap, elapsed_ms),
        _ => false,
    }
}

/// A leaf has kept its shape and lost no coverage state: every best-seen
/// cell is at least what it was.
pub open spec fn leaf_monotone(pre: LeafFeedback, post: LeafFeedback) -> bool {
    match (pre, post) {
        (LeafFeedback::MaxMap(m0), LeafFeedback::MaxMap(m1)) => m1@.len() == m0@.len()
            && forall|i: int| 0 <= i < m0@.len() ==> m1@[i] >= m0@[i],
        (LeafFeedback::Crash(_), LeafFeedback::Crash(_)) => true,
        (LeafFeedback::Time(_), LeafFeedback::Time(_)) => true,
        _ => false,
    }
}

/// The composed feedback has kept its shape and lost no coverage state.
pub open spec fn feedback_monotone(pre: Feedback, post: Feedback) -> bool {
    match (pre, post) {
        (Feedback::Leaf(a0), Feedback::Leaf(a1)) => leaf_monotone(a0, a1),
        (Feedback::And(a0, b0), Feedback::And(a1, b1)) => leaf_monotone(a0, a1)
            && leaf_monotone(b0, b1),
        (Feedback::Or(a0, b0), Feedback::Or(a1, b1)) => leaf_monotone(a0, a1)
            && leaf_monotone(b0, b1),
        _ => false,
    }
}

/// Nothing evaluated, nothing lost.
pub proof fn lemma_monotone_refl(f: Feedback)
    ensures
        feedback_monotone(f, f),
{
}

/// One evaluation never loses coverage state: evolution implies
/// monotonicity.
pub proof fn lemma_evolved_implies_monotone(
    pre: Feedback,
    post: Feedback,
    snap: Seq<u8>,
    elapsed_ms: u64,
)
    requires
        feedback_wf(pre, snap.len()),
        feedback_evolved(pre, post, snap, elapsed_ms),
    ensures
        feedback_monotone(pre, post),
{
}

/// Monotonicity chains across successive evaluations.
pub proof fn lemma_monotone_trans(a: Feedback, b: Feedback, c: Feedback)
    requires
        feedback_monotone(a, b),
        feedback_monotone(b, c),
    ensures
        feedback_monotone(a, c),
{
}

impl Feedback {
    /// Evaluate one execution. The state update of every part is applied
    /// before the parts' verdicts are combined, so no coverage state is
    /// ever lost to short-circuiting.
    pub fn is_interesting(&mut self, result: ExecutionResult, snap: &Vec<u8>, elapsed_ms: u64)
        -> (r: bool)
        requires
            feedback_wf(*old(self), snap@.len()),
        ensures
            r == feedback_interest(*old(self), result, snap@),
            feedback_evolved(*old(self), *final(self), snap@, elapsed_ms),
            feedback_wf(*final(self), snap@.len()),
    {
        match self {
            Feedback::Leaf(a) => a.is_interesting(result, snap, elapsed_ms),
            Feedback::And(a, b) => {
                let ra = a.is_interesting(result, snap, elapsed_ms);
                let rb = b.is_interesting(result, snap, elapsed_ms);
                ra && rb
            },
            Feedback::Or(a, b) => {
                let ra = a.is_interesting(result, snap, elapsed_ms);
                let rb = b.is_interesting(result, snap, elapsed_ms);
                ra || rb
            },
        }
    }
}

} // verus!
