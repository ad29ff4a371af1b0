//! The forkserver protocol: a persistent child re-executes the target per
//! request. The control pipe carries a 4-byte go token out and a 4-byte
//! status token back. This module is the protocol's decision core; the
//! caller owns the pipes and the child, performs the reads, writes and
//! kills, and feeds every observation back in here.

use vstd::prelude::*;
use crate::{ExecutionResult, FuzzError};

verus! {

/// The 4-byte token written to the control pipe to start one execution.
pub const GO_TOKEN: u32 = 0x676F2121;

/// Status token: the worker completed and the server continues.
pub const STATUS_CONTINUING: u32 = 0;

/// Status token: the worker exited abnormally.
pub const STATUS_EXITED: u32 = 1;

/// Status token: the worker was terminated by a signal.
pub const STATUS_SIGNALED: u32 = 2;

/// Meaning of a status token: clean continuation is a normal execution,
/// an exit or signal report is a target crash, anything else is not part
/// of the protocol.
pub open spec fn classify_status(w: u32) -> Option<ExecutionResult> {
    if w == STATUS_CONTINUING {
        Some(ExecutionResult::Normal)
    } else if w == STATUS_EXITED || w == STATUS_SIGNALED {
        Some(ExecutionResult::Crash)
    } else {
        None
    }
}

/// Where the control pipe stands between the executor and the child.
#[derive(Clone, Copy, PartialEq, Eq, Structural, Debug)]
pub enum ProtocolState {
    /// No execution in flight; a go token may be sent.
    Synced,
    /// A go token was sent; a status token is owed.
    AwaitingStatus,
    /// The pipe could not be re-synchronized; fatal, distinct from any
    /// target crash.
    Desynced,
}

/// How a timeout leaves the pipe: synchronized again exactly when the
/// in-flight worker was killed and the status its death produced was
/// drained from the pipe.
pub open spec fn timeout_step(worker_killed: bool, drained: bool) -> ProtocolState {
    if worker_killed && drained {
        ProtocolState::Synced
    } else {
        ProtocolState::Desynced
    }
}

/// Protocol liveness after a timeout: killing the worker and draining its
/// status re-synchronizes the pipe, a new run may then start, and a
/// continuing status completes it normally — no respawn of the
/// persistent child is ever needed on this path.
pub proof fn lemma_timeout_recovery(worker_killed: bool, drained: bool)
    requires
        worker_killed,
        drained,
    ensures
        timeout_step(worker_killed, drained) == ProtocolState::Synced,
        classify_status(STATUS_CONTINUING) == Some(ExecutionResult::Normal),
{
}

/// The protocol state machine for one persistent child.
pub struct ForkserverProtocol {
    pub state: ProtocolState,
}

impl ForkserverProtocol {
    /// A freshly spawned child starts synchronized.
    pub fn new() -> (r: Self)
        ensures
            r.state is Synced,
    {
        ForkserverProtocol { state: ProtocolState::Synced }
    }

    /// Begin one run. The caller has already placed the input at the
    /// exchange location; it must now write the returned token to the
    /// control pipe and wait, bounded, for the status.
    pub fn start_run(&mut self) -> (tok: u32)
        requires
            old(self).state is Synced,
        ensures
            final(self).state is AwaitingStatus,
            tok == GO_TOKEN,
    {
        self.state = ProtocolState::AwaitingStatus;
        GO_TOKEN
    }

    /// The child's status token arrived within the bound. A token outside
    /// the protocol desynchronizes the pipe, which is fatal.
    pub fn on_status(&mut self, status: u32) -> (r: Result<ExecutionResult, FuzzError>)
        requires
            old(self).state is AwaitingStatus,
        ensures
            match r {
                Result::Ok(res) => final(self).state is Synced && classify_status(status)
                    == Some(res),
                Result::Err(e) => e == FuzzError::ExecutorProtocol && final(self).state
                    is Desynced && classify_status(status) is None,
            },
    {
        if status == STATUS_CONTINUING {
            self.state = ProtocolState::Synced;
            Ok(ExecutionResult::Normal)
        } else if status == STATUS_EXITED || status == STATUS_SIGNALED {
            self.state = ProtocolState::Synced;
            Ok(ExecutionResult::Crash)
        } else {
            self.state = ProtocolState::Desynced;
            Err(FuzzError::ExecutorProtocol)
        }
    }

    /// The bounded wait expired. The caller reports whether it managed to
    /// kill the in-flight worker (not the persistent server) and whether
    /// it then drained the status that the kill produced. Both together
    /// re-synchronize the pipe and the timeout is plain data; otherwise
    /// the pipe is desynchronized, a fatal protocol error.
    pub fn on_timeout(&mut self, worker_killed: bool, drained_status: Option<u32>)
        -> (r: Result<ExecutionResult, FuzzError>)
        requires
            old(self).state is AwaitingStatus,
        ensures
            final(self).state == timeout_step(worker_killed, drained_status is Some),
            match r {
                Result::Ok(res) => res is Timeout && worker_killed && drained_status is Some,
                Result::Err(e) => e == FuzzError::ExecutorProtocol && !(worker_killed
                    && drained_status is Some),
            },
    {
        let drained = match drained_status {
            Some(_) => true,
            None => false,
        };
        if worker_killed && drained {
            self.state = ProtocolState::Synced;
            Ok(ExecutionResult::Timeout)
        } else {
            self.state = ProtocolState::Desynced;
            Err(FuzzError::ExecutorProtocol)
        }
    }
}

} // verus!
