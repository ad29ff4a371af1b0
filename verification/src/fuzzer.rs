//! The central loop: pick a corpus entry, mutate it, execute the
//! variant, evaluate the feedbacks, retain what was interesting, report
//! what happened. Target crashes and timeouts are data inside the loop;
//! only an executor protocol failure aborts it.

use vstd::prelude::*;
use crate::corpus::{Corpus, CorpusEntry, sat_add64, sat_inc64};
use crate::event::Event;
use crate::executor::{Harness, TimedExecutor};
use crate::executor::timed_result;
use crate::feedback::{
    Feedback, feedback_wf, feedback_interest, feedback_evolved, feedback_monotone,
    lemma_evolved_implies_monotone, lemma_monotone_refl, lemma_monotone_trans,
};
use crate::schedule::{
    QueueScheduler, MinimizingScheduler, queue_pick, has_favored, FULL_PASS_PERIOD,
};
use crate::{ExecutionResult, FuzzError};

verus! {

/// The external mutator: produces a new input from an existing one; may
/// consume external randomness but retains nothing across calls.
/// Implemented by the library's users.
pub trait Mutator {
    fn mutate(&mut self, input: &Vec<u8>) -> Vec<u8>;
}

/// Byte-for-byte copy of an input.
pub fn clone_bytes(v: &Vec<u8>) -> (r: Vec<u8>)
    ensures
        r@ == v@,
{
    let n = v.len();
    let mut r: Vec<u8> = Vec::new();
    let mut i: usize = 0;
    while i < n
        invariant
            i <= n,
            n == v@.len(),
            r@ == v@.subrange(0, i as int),
        decreases n - i,
    {
        let b = v[i];
        r.push(b);
        proof {
            assert(r@ =~= v@.subrange(0, i + 1));
        }
        i = i + 1;
    }
    proof {
        assert(r@ =~= v@);
    }
    r
}

/// How many cells of a snapshot were hit at all.
pub open spec fn count_nonzero(s: Seq<u8>) -> nat
    decreases s.len(),
{
    if s.len() == 0 {
        0
    } else {
        count_nonzero(s.drop_last()) + if s.last() != 0 {
            1nat
        } else {
            0nat
        }
    }
}

/// Unfolding of `count_nonzero` along a prefix.
pub proof fn lemma_count_nonzero_step(s: Seq<u8>, i: int)
    requires
        0 <= i < s.len(),
    ensures
        count_nonzero(s.subrange(0, i + 1)) == count_nonzero(s.subrange(0, i)) + if s[i] != 0 {
            1int
        } else {
            0int
        },
{
    assert(s.subrange(0, i + 1).drop_last() =~= s.subrange(0, i));
    assert(s.subrange(0, i + 1).last() == s[i]);
}

/// Count the cells a snapshot hit: the novelty measure handed to the
/// minimizing scheduler.
pub fn count_nonzero_cells(snap: &Vec<u8>) -> (r: u64)
    ensures
        r as nat == count_nonzero(snap@),
        r <= snap@.len(),
{
    let n = snap.len();
    let mut cnt: u64 = 0;
    let mut i: usize = 0;
    while i < n
        invariant
            i <= n,
            n == snap@.len(),
            cnt <= i,
            cnt as nat == count_nonzero(snap@.subrange(0, i as int)),
        decreases n - i,
    {
        proof {
            lemma_count_nonzero_step(snap@, i as int);
        }
        if snap[i] != 0 {
            cnt = cnt + 1;
        }
        i = i + 1;
    }
    proof {
        assert(snap@.subrange(0, n as int) =~= snap@);
    }
    cnt
}

/// The scheduling policy in use: plain queue, or minimizing.
pub enum Scheduler {
    Queue(QueueScheduler),
    Minimizing(MinimizingScheduler),
}

impl Scheduler {
    /// The next entry to mutate: each policy behaves exactly as its
    /// concrete scheduler's own contract says, variant kept.
    pub fn next(&mut self, corpus: &Corpus) -> (id: usize)
        requires
            corpus@.len() > 0,
        ensures
            id < corpus@.len(),
            (*old(self)) matches Scheduler::Queue(q) ==> ((*final(self))
                matches Scheduler::Queue(q2) && id == queue_pick(
                q.cursor as nat,
                corpus@.len() as nat,
            ) && q2.cursor == id + 1),
            (*old(self)) matches Scheduler::Minimizing(m) ==> ((*final(self))
                matches Scheduler::Minimizing(m2) && (m.turns % FULL_PASS_PERIOD != 0
                && has_favored(corpus@) ==> corpus@[id as int].favored) && (m.turns
                % FULL_PASS_PERIOD == 0 ==> id == queue_pick(
                m.queue.cursor as nat,
                corpus@.len() as nat,
            )) && m2.turns == (if m.turns == u64::MAX {
                0u64
            } else {
                (m.turns + 1) as u64
            }) && m2.queue.cursor == queue_pick(m.queue.cursor as nat, corpus@.len() as nat)
                + 1),
    {
        match self {
            Scheduler::Queue(q) => q.next(corpus.count()),
            Scheduler::Minimizing(m) => m.next(corpus),
        }
    }

    /// Hear of the entry just added at `id` with the given novelty. The
    /// queue policy changes nothing; the minimizing policy decides the
    /// entry's favored flag, touching nothing else.
    pub fn on_add(&mut self, corpus: &mut Corpus, id: usize, novelty: u64)
        requires
            id < old(corpus)@.len(),
        ensures
            final(corpus)@.len() == old(corpus)@.len(),
            forall|i: int| 0 <= i < old(corpus)@.len() && i != id ==> final(corpus)@[i]
                == old(corpus)@[i],
            final(corpus)@[id as int].input@ == old(corpus)@[id as int].input@,
            final(corpus)@[id as int].exec_count == old(corpus)@[id as int].exec_count,
            final(corpus)@[id as int].discovery_ms == old(corpus)@[id as int].discovery_ms,
            (*old(self)) is Queue ==> final(corpus)@ == old(corpus)@,
            (*old(self)) is Minimizing ==> final(corpus)@[id as int].favored == (novelty > 0
                && novelty >= old(corpus)@[id as int].input@.len() / 64),
    {
        match self {
            Scheduler::Queue(q) => {
                let len = corpus.count();
                q.on_add(len);
            },
            Scheduler::Minimizing(m) => {
                m.on_add(corpus, id, novelty);
            },
        }
    }
}

/// What one iteration reported: the execution's tagged result and
/// duration, the two feedback verdicts on it, and the event to forward
/// to the broker, if any.
pub struct Report {
    pub result: ExecutionResult,
    pub elapsed_ms: u64,
    pub interesting: bool,
    pub objective: bool,
    pub event: Option<Event>,
}

/// One client's fuzzing state: the two corpora, the two feedbacks, the
/// scheduler, and the execution counter.
pub struct Fuzzer {
    /// The evolving corpus, memory resident.
    pub corpus: Corpus,
    /// The solutions corpus; the caller persists it durably.
    pub solutions: Corpus,
    /// Decides what is interesting enough to retain.
    pub feedback: Feedback,
    /// Decides what is a solution (typically: a crash).
    pub objective: Feedback,
    /// Picks the next entry to mutate.
    pub scheduler: Scheduler,
    /// Executions performed so far, saturating.
    pub executions: u64,
}

impl Fuzzer {
    /// Both feedbacks are sized to the executor's coverage map.
    pub open spec fn wf(&self, map_len: nat) -> bool {
        feedback_wf(self.feedback, map_len) && feedback_wf(self.objective, map_len)
    }

    pub fn new(feedback: Feedback, objective: Feedback, scheduler: Scheduler) -> (r: Self)
        ensures
            r.corpus@.len() == 0,
            r.solutions@.len() == 0,
            r.feedback == feedback,
            r.objective == objective,
            r.scheduler == scheduler,
            r.executions == 0u64,
    {
        Fuzzer {
            corpus: Corpus::new(),
            solutions: Corpus::new(),
            feedback,
            objective,
            scheduler,
            executions: 0,
        }
    }

    /// Evaluate one finished execution and report it. Both feedbacks'
    /// states are updated whatever either verdict is; a solution goes to
    /// the solutions corpus, an interesting non-solution to the evolving
    /// corpus with the scheduler notified at once, and the returned event
    /// says which happened.
    pub fn process_execution(
        &mut self,
        input: Vec<u8>,
        result: ExecutionResult,
        snap: &Vec<u8>,
        elapsed_ms: u64,
        now_ms: u64,
    ) -> (rep: Report)
        requires
            old(self).wf(snap@.len()),
        ensures
            final(self).wf(snap@.len()),
            final(self).executions == sat_inc64(old(self).executions),
            rep.result == result,
            rep.elapsed_ms == elapsed_ms,
            rep.interesting == feedback_interest(old(self).feedback, result, snap@),
            rep.objective == feedback_interest(old(self).objective, result, snap@),
            feedback_evolved(old(self).feedback, final(self).feedback, snap@, elapsed_ms),
            feedback_evolved(old(self).objective, final(self).objective, snap@, elapsed_ms),
            feedback_monotone(old(self).feedback, final(self).feedback),
            feedback_monotone(old(self).objective, final(self).objective),
            rep.objective ==> {
                &&& final(self).solutions@.len() == old(self).solutions@.len() + 1
                &&& final(self).solutions@.last().input@ == input@
                &&& final(self).solutions@.last().discovery_ms == now_ms
                &&& forall|i: int| 0 <= i < old(self).solutions@.len()
                    ==> final(self).solutions@[i] == old(self).solutions@[i]
                &&& final(self).corpus@ == old(self).corpus@
                &&& (rep.event matches Some(Event::Stats { executions: ex, corpus_count: cc, solutions: sc })
                    && ex == final(self).executions
                    && cc == final(self).corpus@.len() as u64
                    && sc == final(self).solutions@.len() as u64)
            },
            rep.interesting && !rep.objective ==> {
                &&& final(self).corpus@.len() == old(self).corpus@.len() + 1
                &&& final(self).corpus@.last().input@ == input@
                &&& final(self).corpus@.last().discovery_ms == now_ms
                &&& forall|i: int| 0 <= i < old(self).corpus@.len()
                    ==> final(self).corpus@[i] == old(self).corpus@[i]
                &&& final(self).solutions@ == old(self).solutions@
                &&& (rep.event matches Some(Event::NewTestcase { input: b, corpus_count: cc })
                    && b@ == input@
                    && cc == final(self).corpus@.len() as u64)
            },
            !rep.interesting && !rep.objective ==> {
                &&& final(self).corpus@ == old(self).corpus@
                &&& final(self).solutions@ == old(self).solutions@
                &&& rep.event is None
            },
    {
        let interesting = self.feedback.is_interesting(result, snap, elapsed_ms);
        let is_objective = self.objective.is_interesting(result, snap, elapsed_ms);
        proof {
            lemma_evolved_implies_monotone(old(self).feedback, self.feedback, snap@, elapsed_ms);
            lemma_evolved_implies_monotone(old(self).objective, self.objective, snap@, elapsed_ms);
        }
        if self.executions < u64::MAX {
            self.executions = self.executions + 1;
        }
        if is_objective {
            let entry = CorpusEntry::new(input, now_ms);
            self.solutions.add(entry);
            let ev = Event::Stats {
                executions: self.executions,
                corpus_count: self.corpus.count() as u64,
                solutions: self.solutions.count() as u64,
            };
            Report { result, elapsed_ms, interesting, objective: true, event: Some(ev) }
        } else if interesting {
            let novelty = count_nonzero_cells(snap);
            let relayed = clone_bytes(&input);
            let entry = CorpusEntry::new(input, now_ms);
            let id = self.corpus.add(entry);
            self.scheduler.on_add(&mut self.corpus, id, novelty);
            let ev = Event::NewTestcase {
                input: relayed,
                corpus_count: self.corpus.count() as u64,
            };
            Report { result, elapsed_ms, interesting: true, objective: false, event: Some(ev) }
        } else {
            Report { result, elapsed_ms, interesting: false, objective: false, event: None }
        }
    }

    /// One loop iteration: select, mutate, execute, evaluate, report.
    /// A crash or timeout of the target is data in the report; the error
    /// case is only the executor's own fatal protocol failure, which the
    /// caller propagates so the launcher can restart the client.
    pub fn fuzz_one<H: Harness, M: Mutator>(
        &mut self,
        executor: &mut TimedExecutor<H>,
        mutator: &mut M,
        now_ms: u64,
    ) -> (r: Result<Report, FuzzError>)
        requires
            old(self).wf(old(executor).inner.map_len as nat),
            old(self).corpus@.len() > 0,
            old(executor).inner.wf(),
        ensures
            final(executor).inner.wf(),
            final(executor).inner.map_len == old(executor).inner.map_len,
            final(executor).budget_ms == old(executor).budget_ms,
            final(executor).inner.runs@ == old(executor).inner.runs@ + 1,
            final(self).wf(old(executor).inner.map_len as nat),
            old(self).corpus@.len() <= final(self).corpus@.len() <= old(self).corpus@.len() + 1,
            old(self).solutions@.len() <= final(self).solutions@.len() <= old(self).solutions@.len()
                + 1,
            forall|i: int| 0 <= i < old(self).corpus@.len() ==> final(self).corpus@[i].input@
                == old(self).corpus@[i].input@,
            forall|i: int| 0 <= i < old(self).solutions@.len() ==> final(self).solutions@[i]
                == old(self).solutions@[i],
            feedback_monotone(old(self).feedback, final(self).feedback),
            feedback_monotone(old(self).objective, final(self).objective),
            match r {
                Result::Ok(rep) => {
                    &&& final(self).executions == sat_inc64(old(self).executions)
                    &&& rep.result == timed_result(
                        final(executor).inner.last_outcome@,
                        rep.elapsed_ms,
                        old(executor).budget_ms,
                    )
                    &&& rep.interesting == feedback_interest(
                        old(self).feedback,
                        rep.result,
                        final(executor).inner.map@,
                    )
                    &&& rep.objective == feedback_interest(
                        old(self).objective,
                        rep.result,
                        final(executor).inner.map@,
                    )
                    &&& feedback_evolved(
                        old(self).feedback,
                        final(self).feedback,
                        final(executor).inner.map@,
                        rep.elapsed_ms,
                    )
                    &&& feedback_evolved(
                        old(self).objective,
                        final(self).objective,
                        final(executor).inner.map@,
                        rep.elapsed_ms,
                    )
                    &&& (old(self).scheduler matches Scheduler::Queue(q) ==> ({
                        let sid = queue_pick(
                            q.cursor as nat,
                            old(self).corpus@.len() as nat,
                        ) as int;
                        final(self).corpus@[sid].exec_count == sat_inc64(
                            old(self).corpus@[sid].exec_count,
                        )
                    }))
                    &&& exists|id: int| 0 <= id < old(self).corpus@.len()
                        && final(self).corpus@[id].exec_count == sat_inc64(
                        old(self).corpus@[id].exec_count,
                    )
                    &&& (rep.interesting && !rep.objective) <==> final(self).corpus@.len()
                        == old(self).corpus@.len() + 1
                    &&& rep.objective <==> final(self).solutions@.len()
                        == old(self).solutions@.len() + 1
                    &&& (rep.event is Some) <==> (rep.interesting || rep.objective)
                },
                Result::Err(e) => e == FuzzError::ExecutorProtocol,
            },
    {
        let id = self.scheduler.next(&self.corpus);
        self.corpus.mark_executed(id);
        let base = clone_bytes(&self.corpus.get(id).input);
        let variant = mutator.mutate(&base);
        let out = match executor.run(&variant) {
            Ok(out) => out,
            Err(e) => {
                proof {
                    lemma_monotone_refl(self.feedback);
                    lemma_monotone_refl(self.objective);
                }
                return Err(e);
            },
        };
        let rep = self.process_execution(variant, out.result, &out.snapshot, out.elapsed_ms, now_ms);
        proof {
            assert(self.corpus@[id as int].exec_count == sat_inc64(
                old(self).corpus@[id as int].exec_count,
            ));
        }
        Ok(rep)
    }

    /// Import a test case that another client relayed: execute it here
    /// so the local feedback state reflects it, then retain it under the
    /// local policies, exactly as an own variant would be.
    pub fn import_testcase<H: Harness>(
        &mut self,
        executor: &mut TimedExecutor<H>,
        input: Vec<u8>,
        now_ms: u64,
    ) -> (r: Result<Report, FuzzError>)
        requires
            old(self).wf(old(executor).inner.map_len as nat),
            old(executor).inner.wf(),
        ensures
            final(executor).inner.wf(),
            final(executor).inner.map_len == old(executor).inner.map_len,
            final(executor).budget_ms == old(executor).budget_ms,
            final(executor).inner.runs@ == old(executor).inner.runs@ + 1,
            final(self).wf(old(executor).inner.map_len as nat),
            forall|i: int| 0 <= i < old(self).corpus@.len() ==> final(self).corpus@[i]
                == old(self).corpus@[i],
            forall|i: int| 0 <= i < old(self).solutions@.len() ==> final(self).solutions@[i]
                == old(self).solutions@[i],
            feedback_monotone(old(self).feedback, final(self).feedback),
            feedback_monotone(old(self).objective, final(self).objective),
            match r {
                Result::Ok(rep) => {
                    &&& final(self).executions == sat_inc64(old(self).executions)
                    &&& rep.result == timed_result(
                        final(executor).inner.last_outcome@,
                        rep.elapsed_ms,
                        old(executor).budget_ms,
                    )
                    &&& rep.interesting == feedback_interest(
                        old(self).feedback,
                        rep.result,
                        final(executor).inner.map@,
                    )
                    &&& rep.objective == feedback_interest(
                        old(self).objective,
                        rep.result,
                        final(executor).inner.map@,
                    )
                    &&& feedback_evolved(
                        old(self).feedback,
                        final(self).feedback,
                        final(executor).inner.map@,
                        rep.elapsed_ms,
                    )
                    &&& feedback_evolved(
                        old(self).objective,
                        final(self).objective,
                        final(executor).inner.map@,
                        rep.elapsed_ms,
                    )
                    &&& (rep.interesting && !rep.objective) <==> final(self).corpus@.len()
                        == old(self).corpus@.len() + 1
                    &&& (rep.interesting && !rep.objective) ==> final(self).corpus@.last().input@
                        == input@
                    &&& rep.objective <==> final(self).solutions@.len()
                        == old(self).solutions@.len() + 1
                    &&& rep.objective ==> final(self).solutions@.last().input@ == input@
                    &&& (rep.event is Some) <==> (rep.interesting || rep.objective)
                },
                Result::Err(e) => e == FuzzError::ExecutorProtocol,
            },
    {
        let out = match executor.run(&input) {
            Ok(out) => out,
            Err(e) => {
                proof {
                    lemma_monotone_refl(self.feedback);
                    lemma_monotone_refl(self.objective);
                }
                return Err(e);
            },
        };
        let rep = self.process_execution(input, out.result, &out.snapshot, out.elapsed_ms, now_ms);
        Ok(rep)
    }

    /// Run `iterations` loop iterations, advancing the run clock one
    /// step per iteration. Stops early only on a fatal executor error.
    pub fn fuzz_loop<H: Harness, M: Mutator>(
        &mut self,
        executor: &mut TimedExecutor<H>,
        mutator: &mut M,
        iterations: u64,
        start_ms: u64,
    ) -> (r: Result<(), FuzzError>)
        requires
            old(self).wf(old(executor).inner.map_len as nat),
            old(self).corpus@.len() > 0,
            old(executor).inner.wf(),
        ensures
            final(executor).inner.wf(),
            final(executor).inner.map_len == old(executor).inner.map_len,
            final(executor).budget_ms == old(executor).budget_ms,
            final(self).wf(old(executor).inner.map_len as nat),
            final(self).corpus@.len() >= old(self).corpus@.len(),
            final(self).solutions@.len() >= old(self).solutions@.len(),
            forall|i: int| 0 <= i < old(self).corpus@.len() ==> final(self).corpus@[i].input@
                == old(self).corpus@[i].input@,
            forall|i: int| 0 <= i < old(self).solutions@.len() ==> final(self).solutions@[i]
                == old(self).solutions@[i],
            feedback_monotone(old(self).feedback, final(self).feedback),
            feedback_monotone(old(self).objective, final(self).objective),
            match r {
                Result::Ok(u) => {
                    &&& u == ()
                    &&& final(self).executions == sat_add64(old(self).executions, iterations)
                    &&& final(executor).inner.runs@ == old(executor).inner.runs@ + iterations
                },
                Result::Err(e) => e == FuzzError::ExecutorProtocol,
            },
    {
        let ghost map_len = old(executor).inner.map_len as nat;
        let mut k: u64 = 0;
        proof {
            lemma_monotone_refl(self.feedback);
            lemma_monotone_refl(self.objective);
        }
        while k < iterations
            invariant
                k <= iterations,
                self.wf(map_len),
                self.corpus@.len() > 0,
                self.corpus@.len() >= old(self).corpus@.len(),
                self.solutions@.len() >= old(self).solutions@.len(),
                forall|i: int| 0 <= i < old(self).corpus@.len() ==> self.corpus@[i].input@
                    == old(self).corpus@[i].input@,
                forall|i: int| 0 <= i < old(self).solutions@.len() ==> self.solutions@[i]
                    == old(self).solutions@[i],
                feedback_monotone(old(self).feedback, self.feedback),
                feedback_monotone(old(self).objective, self.objective),
                self.executions == sat_add64(old(self).executions, k),
                executor.inner.wf(),
                executor.inner.map_len == old(executor).inner.map_len,
                executor.inner.map_len as nat == map_len,
                executor.budget_ms == old(executor).budget_ms,
                executor.inner.runs@ == old(executor).inner.runs@ + k,
            decreases iterations - k,
        {
            let now_ms = if start_ms <= u64::MAX - k {
                start_ms + k
            } else {
                u64::MAX
            };
            let ghost pre_feedback = self.feedback;
            let ghost pre_objective = self.objective;
            match self.fuzz_one(executor, mutator, now_ms) {
                Ok(_) => {},
                Err(e) => {
                    proof {
                        lemma_monotone_trans(old(self).feedback, pre_feedback, self.feedback);
                        lemma_monotone_trans(old(self).objective, pre_objective, self.objective);
                    }
                    return Err(e);
                },
            }
            proof {
                lemma_monotone_trans(old(self).feedback, pre_feedback, self.feedback);
                lemma_monotone_trans(old(self).objective, pre_objective, self.objective);
            }
            k = k + 1;
        }
        Ok(())
    }

    /// Seed an empty (or existing) corpus: run each seed once so the
    /// feedback state reflects it, then retain every seed unconditionally
    /// and notify the scheduler, so all seeds are eligible at once.
    pub fn load_initial<H: Harness>(
        &mut self,
        executor: &mut TimedExecutor<H>,
        seeds: &Vec<Vec<u8>>,
        now_ms: u64,
    ) -> (r: Result<(), FuzzError>)
        requires
            old(self).wf(old(executor).inner.map_len as nat),
            old(executor).inner.wf(),
        ensures
            final(executor).inner.wf(),
            final(executor).inner.map_len == old(executor).inner.map_len,
            final(executor).budget_ms == old(executor).budget_ms,
            final(self).wf(old(executor).inner.map_len as nat),
            forall|i: int| 0 <= i < old(self).corpus@.len() ==> final(self).corpus@[i]
                == old(self).corpus@[i],
            final(self).solutions@ == old(self).solutions@,
            feedback_monotone(old(self).feedback, final(self).feedback),
            feedback_monotone(old(self).objective, final(self).objective),
            match r {
                Result::Ok(u) => {
                    &&& u == ()
                    &&& final(self).corpus@.len() == old(self).corpus@.len() + seeds@.len()
                    &&& forall|i: int| 0 <= i < seeds@.len()
                        ==> final(self).corpus@[old(self).corpus@.len() + i].input@ == seeds@[i]@
                    &&& final(self).executions == sat_add64(
                        old(self).executions,
                        seeds@.len() as u64,
                    )
                    &&& final(executor).inner.runs@ == old(executor).inner.runs@ + seeds@.len()
                },
                Result::Err(e) => e == FuzzError::ExecutorProtocol,
            },
    {
        let ghost map_len = old(executor).inner.map_len as nat;
        let ghost base = old(self).corpus@.len() as int;
        let n = seeds.len();
        let mut i: usize = 0;
        proof {
            lemma_monotone_refl(self.feedback);
            lemma_monotone_refl(self.objective);
        }
        while i < n
            invariant
                i <= n,
                n == seeds@.len(),
                self.wf(map_len),
                self.corpus@.len() == base + i,
                base == old(self).corpus@.len(),
                forall|j: int| 0 <= j < base ==> self.corpus@[j] == old(self).corpus@[j],
                forall|j: int| 0 <= j < i ==> self.corpus@[base + j].input@ == seeds@[j]@,
                self.solutions@ == old(self).solutions@,
                feedback_monotone(old(self).feedback, self.feedback),
                feedback_monotone(old(self).objective, self.objective),
                self.executions == sat_add64(old(self).executions, i as u64),
                executor.inner.wf(),
                executor.inner.map_len == old(executor).inner.map_len,
                executor.inner.map_len as nat == map_len,
                executor.budget_ms == old(executor).budget_ms,
                executor.inner.runs@ == old(executor).inner.runs@ + i,
            decreases n - i,
        {
            let seed = &seeds[i];
            let ghost pre_feedback = self.feedback;
            let ghost pre_objective = self.objective;
            let out = match executor.run(seed) {
                Ok(out) => out,
                Err(e) => {
                    return Err(e);
                },
            };
            let _ = self.feedback.is_interesting(out.result, &out.snapshot, out.elapsed_ms);
            let _ = self.objective.is_interesting(out.result, &out.snapshot, out.elapsed_ms);
            proof {
                lemma_evolved_implies_monotone(
                    pre_feedback,
                    self.feedback,
                    out.snapshot@,
                    out.elapsed_ms,
                );
                lemma_evolved_implies_monotone(
                    pre_objective,
                    self.objective,
                    out.snapshot@,
                    out.elapsed_ms,
                );
                lemma_monotone_trans(old(self).feedback, pre_feedback, self.feedback);
                lemma_monotone_trans(old(self).objective, pre_objective, self.objective);
            }
            if self.executions < u64::MAX {
                self.executions = self.executions + 1;
            }
            let novelty = count_nonzero_cells(&out.snapshot);
            let entry = CorpusEntry::new(clone_bytes(seed), now_ms);
            let id = self.corpus.add(entry);
            self.scheduler.on_add(&mut self.corpus, id, novelty);
            i = i + 1;
        }
        Ok(())
    }
}

} // verus!
