use fuzz_core::coverage::CoverageMap;
use fuzz_core::executor::{
    Harness, HarnessOutcome, InProcessExecutor, TimedExecutor,
};
use fuzz_core::feedback::MapFeedback;
use fuzz_core::ExecutionResult;

/// Faults exactly when the input starts with `x`; marks cell 0 always.
struct PrefixHarness;

impl Harness for PrefixHarness {
    fn run_harness(&mut self, input: &Vec<u8>, map: &mut CoverageMap) -> (HarnessOutcome, u64) {
        map.record(0);
        if !input.is_empty() && input[0] == b'x' {
            return (HarnessOutcome::Faulted, 1);
        }
        (HarnessOutcome::Returned, 1)
    }
}

#[test]
fn fault_becomes_crash_and_process_survives() {
    let mut exec = InProcessExecutor::new(PrefixHarness, 8);
    let crashing: Vec<u8> = b"x".to_vec();
    let clean: Vec<u8> = b"y".to_vec();
    let out = exec.run(&crashing).unwrap();
    assert_eq!(out.result, ExecutionResult::Crash);
    // The executor is still alive and serves the next call normally.
    let out2 = exec.run(&clean).unwrap();
    assert_eq!(out2.result, ExecutionResult::Normal);
    // And a fault again after that: any sequence of inputs is served.
    let out3 = exec.run(&crashing).unwrap();
    assert_eq!(out3.result, ExecutionResult::Crash);
}

#[test]
fn map_is_reset_before_each_execution() {
    let mut exec = InProcessExecutor::new(PrefixHarness, 8);
    let clean: Vec<u8> = b"y".to_vec();
    let out = exec.run(&clean).unwrap();
    assert_eq!(out.snapshot[0], 1);
    // A second run sees 1 again, not an accumulated 2.
    let out2 = exec.run(&clean).unwrap();
    assert_eq!(out2.snapshot[0], 1);
}

/// Self-reports a duration equal to the input's first byte.
struct SlowHarness;

impl Harness for SlowHarness {
    fn run_harness(&mut self, input: &Vec<u8>, map: &mut CoverageMap) -> (HarnessOutcome, u64) {
        map.record(0);
        (HarnessOutcome::Returned, input[0] as u64)
    }
}

#[test]
fn timeout_guard_retags_slow_runs() {
    let mut exec = TimedExecutor::new(InProcessExecutor::new(SlowHarness, 4), 50);
    let fast = exec.run(&vec![10]).unwrap();
    assert_eq!(fast.result, ExecutionResult::Normal);
    let slow = exec.run(&vec![200]).unwrap();
    assert_eq!(slow.result, ExecutionResult::Timeout);
    // After the aborted run, the next call completes normally.
    let next = exec.run(&vec![1]).unwrap();
    assert_eq!(next.result, ExecutionResult::Normal);
}

const MARKER_OFFSETS: [usize; 10] = [0, 20, 112, 120, 121, 503, 1059, 6433, 10059, 10069];
const MARKER_BYTES: [u8; 10] = [b'a', b'b', b'4', b'4', b'q', b'9', b'z', b'o', b'#', b'_'];

/// The staged marker harness: cell 0 is always hit; each further cell is
/// hit once every earlier marker matched; all ten markers matched is the
/// planted fault.
struct MarkerHarness;

impl Harness for MarkerHarness {
    fn run_harness(&mut self, input: &Vec<u8>, map: &mut CoverageMap) -> (HarnessOutcome, u64) {
        map.record(0);
        for k in 0..MARKER_OFFSETS.len() {
            let off = MARKER_OFFSETS[k];
            if input.len() > off && input[off] == MARKER_BYTES[k] {
                if k + 1 == MARKER_OFFSETS.len() {
                    return (HarnessOutcome::Faulted, 1);
                }
                map.record(k + 1);
            } else {
                return (HarnessOutcome::Returned, 1);
            }
        }
        (HarnessOutcome::Returned, 1)
    }
}

fn full_pattern() -> Vec<u8> {
    let mut v = vec![b'.'; 10071];
    for k in 0..MARKER_OFFSETS.len() {
        v[MARKER_OFFSETS[k]] = MARKER_BYTES[k];
    }
    v
}

#[test]
fn exact_pattern_crashes() {
    let mut exec = InProcessExecutor::new(MarkerHarness, 16);
    let out = exec.run(&full_pattern()).unwrap();
    assert_eq!(out.result, ExecutionResult::Crash);
}

#[test]
fn one_missing_marker_is_clean_and_credits_only_matched() {
    let mut exec = InProcessExecutor::new(MarkerHarness, 16);
    let mut feedback = MapFeedback::new(16);

    // Break the sixth marker: only the first six cells can be hit.
    let mut input = full_pattern();
    input[503] = b'.';
    let out = exec.run(&input).unwrap();
    assert_eq!(out.result, ExecutionResult::Normal);
    assert!(feedback.is_interesting(&out.snapshot));
    for i in 0..6 {
        assert_eq!(feedback.state_at(i), 1);
    }
    // No feedback state beyond the markers actually matched.
    for i in 6..16 {
        assert_eq!(feedback.state_at(i), 0);
    }

    // Each missing marker, alone, keeps the run clean.
    for k in 0..MARKER_OFFSETS.len() {
        let mut broken = full_pattern();
        broken[MARKER_OFFSETS[k]] = b'.';
        let out = exec.run(&broken).unwrap();
        assert_eq!(out.result, ExecutionResult::Normal);
    }
}
