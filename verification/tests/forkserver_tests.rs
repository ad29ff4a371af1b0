use fuzz_core::forkserver::{
    ForkserverProtocol, ProtocolState, GO_TOKEN, STATUS_CONTINUING, STATUS_EXITED,
    STATUS_SIGNALED,
};
use fuzz_core::{ExecutionResult, FuzzError};

#[test]
fn normal_run_round_trip() {
    let mut p = ForkserverProtocol::new();
    assert_eq!(p.state, ProtocolState::Synced);
    let tok = p.start_run();
    assert_eq!(tok, GO_TOKEN);
    assert_eq!(p.state, ProtocolState::AwaitingStatus);
    assert_eq!(p.on_status(STATUS_CONTINUING), Ok(ExecutionResult::Normal));
    assert_eq!(p.state, ProtocolState::Synced);
}

#[test]
fn exit_and_signal_are_crashes() {
    let mut p = ForkserverProtocol::new();
    p.start_run();
    assert_eq!(p.on_status(STATUS_EXITED), Ok(ExecutionResult::Crash));
    p.start_run();
    assert_eq!(p.on_status(STATUS_SIGNALED), Ok(ExecutionResult::Crash));
    assert_eq!(p.state, ProtocolState::Synced);
}

#[test]
fn unknown_status_is_fatal_desync() {
    let mut p = ForkserverProtocol::new();
    p.start_run();
    assert_eq!(p.on_status(0xDEAD), Err(FuzzError::ExecutorProtocol));
    assert_eq!(p.state, ProtocolState::Desynced);
}

#[test]
fn timeout_recovery_needs_no_respawn() {
    let mut p = ForkserverProtocol::new();
    p.start_run();
    // The wait expired; the worker was killed and its status drained:
    // the timeout is data and the pipe is synchronized again.
    assert_eq!(p.on_timeout(true, Some(9)), Ok(ExecutionResult::Timeout));
    assert_eq!(p.state, ProtocolState::Synced);
    // The very next run completes normally on the same child.
    let tok = p.start_run();
    assert_eq!(tok, GO_TOKEN);
    assert_eq!(p.on_status(STATUS_CONTINUING), Ok(ExecutionResult::Normal));
}

#[test]
fn failed_timeout_cleanup_is_fatal() {
    let mut p = ForkserverProtocol::new();
    p.start_run();
    assert_eq!(p.on_timeout(false, Some(9)), Err(FuzzError::ExecutorProtocol));
    assert_eq!(p.state, ProtocolState::Desynced);

    let mut q = ForkserverProtocol::new();
    q.start_run();
    assert_eq!(q.on_timeout(true, None), Err(FuzzError::ExecutorProtocol));
    assert_eq!(q.state, ProtocolState::Desynced);
}
