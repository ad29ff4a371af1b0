use fuzz_core::corpus::CorpusEntry;
use fuzz_core::coverage::CoverageMap;
use fuzz_core::event::Event;
use fuzz_core::executor::{
    Harness, HarnessOutcome, InProcessExecutor, TimedExecutor,
};
use fuzz_core::feedback::{CrashFeedback, Feedback, LeafFeedback, MapFeedback};
use fuzz_core::fuzzer::{Fuzzer, Mutator, Scheduler};
use fuzz_core::generate::generate_printable;
use fuzz_core::schedule::QueueScheduler;
use fuzz_core::ExecutionResult;

/// Hits one cell per distinct leading byte class and faults on `!`.
struct ByteHarness;

impl Harness for ByteHarness {
    fn run_harness(&mut self, input: &Vec<u8>, map: &mut CoverageMap) -> (HarnessOutcome, u64) {
        map.record(0);
        if !input.is_empty() {
            if input[0] == b'!' {
                return (HarnessOutcome::Faulted, 1);
            }
            map.record((input[0] % 8) as usize);
        }
        (HarnessOutcome::Returned, 1)
    }
}

/// Replaces the input with a fixed next input, round robin over a list.
struct ListMutator {
    outputs: Vec<Vec<u8>>,
    at: usize,
}

impl Mutator for ListMutator {
    fn mutate(&mut self, _input: &Vec<u8>) -> Vec<u8> {
        let out = self.outputs[self.at % self.outputs.len()].clone();
        self.at += 1;
        out
    }
}

fn fresh_fuzzer(map_len: usize) -> Fuzzer {
    Fuzzer::new(
        Feedback::Leaf(LeafFeedback::MaxMap(MapFeedback::new(map_len))),
        Feedback::Leaf(LeafFeedback::Crash(CrashFeedback::new())),
        Scheduler::Queue(QueueScheduler::new()),
    )
}

#[test]
fn eight_generated_seeds_all_scheduled_once() {
    let mut fuzzer = fresh_fuzzer(8);
    let mut exec = TimedExecutor::new(InProcessExecutor::new(ByteHarness, 8), 1000);

    // Eight printable inputs of length up to 10240, from externally
    // drawn raw bytes.
    let raws: Vec<Vec<u8>> = (0..8u8)
        .map(|k| (0..200usize).map(|i| k.wrapping_mul(37).wrapping_add(i as u8)).collect())
        .collect();
    let seeds: Vec<Vec<u8>> = raws.iter().map(|r| generate_printable(r, 10240)).collect();
    assert!(fuzzer.load_initial(&mut exec, &seeds, 0).is_ok());
    assert_eq!(fuzzer.corpus.count(), 8);

    // All eight come back within eight scheduler calls, none twice.
    let mut q = QueueScheduler::new();
    let mut seen = [false; 8];
    for _ in 0..8 {
        let id = q.next(8);
        assert!(!seen[id]);
        seen[id] = true;
        assert_eq!(fuzzer.corpus.get(id).input, seeds[id]);
    }
    assert!(seen.iter().all(|s| *s));
}

#[test]
fn crashing_variant_goes_to_solutions() {
    let mut fuzzer = fresh_fuzzer(8);
    let mut exec = TimedExecutor::new(InProcessExecutor::new(ByteHarness, 8), 1000);
    fuzzer.corpus.add(CorpusEntry::new(b"seed".to_vec(), 0));

    let mut mutator = ListMutator { outputs: vec![b"!boom".to_vec()], at: 0 };
    let rep = fuzzer.fuzz_one(&mut exec, &mut mutator, 1).unwrap();
    assert!(rep.objective);
    assert_eq!(fuzzer.solutions.count(), 1);
    assert_eq!(fuzzer.solutions.get(0).input, b"!boom".to_vec());
    // A crash is data: the loop state is intact and the corpus untouched.
    assert_eq!(fuzzer.corpus.count(), 1);
    match rep.event {
        Some(Event::Stats { solutions, .. }) => assert_eq!(solutions, 1),
        _ => panic!("expected a stats event for the solution"),
    }
}

#[test]
fn interesting_variant_joins_corpus_with_event() {
    let mut fuzzer = fresh_fuzzer(8);
    let mut exec = TimedExecutor::new(InProcessExecutor::new(ByteHarness, 8), 1000);
    fuzzer.corpus.add(CorpusEntry::new(vec![0], 0));

    // First variant hits cell 1: novel, retained, relayed.
    let mut mutator = ListMutator { outputs: vec![vec![1u8], vec![1u8]], at: 0 };
    let rep = fuzzer.fuzz_one(&mut exec, &mut mutator, 5).unwrap();
    assert!(rep.interesting && !rep.objective);
    assert_eq!(fuzzer.corpus.count(), 2);
    assert_eq!(fuzzer.corpus.get(1).input, vec![1u8]);
    assert_eq!(fuzzer.corpus.get(1).discovery_ms, 5);
    match rep.event {
        Some(Event::NewTestcase { input, corpus_count }) => {
            assert_eq!(input, vec![1u8]);
            assert_eq!(corpus_count, 2);
        },
        _ => panic!("expected a new-testcase event"),
    }

    // The same variant again: nothing novel, nothing added, no event.
    let rep2 = fuzzer.fuzz_one(&mut exec, &mut mutator, 6).unwrap();
    assert!(!rep2.interesting && !rep2.objective);
    assert_eq!(fuzzer.corpus.count(), 2);
    assert!(rep2.event.is_none());
}

#[test]
fn relayed_testcase_cross_pollinates() {
    // Client A finds an interesting input and emits a new-testcase event.
    let mut a = fresh_fuzzer(8);
    let mut exec_a = TimedExecutor::new(InProcessExecutor::new(ByteHarness, 8), 1000);
    a.corpus.add(CorpusEntry::new(vec![0], 0));
    let mut mutator = ListMutator { outputs: vec![vec![2u8]], at: 0 };
    let rep = a.fuzz_one(&mut exec_a, &mut mutator, 1).unwrap();
    let relayed = match rep.event {
        Some(Event::NewTestcase { input, .. }) => input,
        _ => panic!("expected a new-testcase event"),
    };

    // Client B imports the relayed bytes and retains them too.
    let mut b = fresh_fuzzer(8);
    let mut exec_b = TimedExecutor::new(InProcessExecutor::new(ByteHarness, 8), 1000);
    let rep_b = b.import_testcase(&mut exec_b, relayed, 2).unwrap();
    assert!(rep_b.interesting && !rep_b.objective);
    assert_eq!(b.corpus.count(), 1);
    assert_eq!(b.corpus.get(0).input, vec![2u8]);
}

#[test]
fn loop_runs_all_iterations_and_counts() {
    let mut fuzzer = fresh_fuzzer(8);
    let mut exec = TimedExecutor::new(InProcessExecutor::new(ByteHarness, 8), 1000);
    fuzzer.corpus.add(CorpusEntry::new(vec![2], 0));

    let mut mutator = ListMutator {
        outputs: vec![vec![2u8], vec![3u8], vec![4u8]],
        at: 0,
    };
    assert!(fuzzer.fuzz_loop(&mut exec, &mut mutator, 30, 0).is_ok());
    assert_eq!(fuzzer.executions, 30);
    // Crashes and timeouts never abort the loop; the corpus only grew.
    assert!(fuzzer.corpus.count() >= 1);
}
