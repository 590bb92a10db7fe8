//! Collecting and reporting the termination of every spawned child.
//!
//! The controller waits for the children in spawn order — stage 0
//! first, regardless of the order in which they actually finish —
//! and classifies each termination as a normal exit, a termination by
//! signal, or an unrecognized outcome.  The report lines rendered
//! here are exactly the ones the interactive loop prints.

use crate::errors::PipelineError;
use crate::render::{i32_to_string, spec_int_digits};
use vstd::prelude::*;
use vstd::string::StringExecFns;

verus! {

/// How one child terminated.
#[derive(Debug, Clone, Copy, PartialEq, Eq, Structural)]
pub enum WaitOutcome {
    /// The child exited normally with the given status.
    Exited { pid: i32, status: i32 },
    /// The child was terminated by the given signal.
    Signaled { pid: i32, signal: i32 },
    /// The wait returned an unrecognized status.
    Abnormal,
}

/// The termination report of one stage's child, recorded in spawn
/// order.
#[derive(Debug, Clone, Copy, PartialEq, Eq, Structural)]
pub struct ReapReport {
    pub stage: usize,
    pub outcome: WaitOutcome,
}

/// Whether an exit or signal outcome names the given process id; an
/// unrecognized outcome names no process.
pub open spec fn spec_outcome_names_pid(outcome: WaitOutcome, pid: i32) -> bool {
    match outcome {
        WaitOutcome::Exited { pid: p, status: _ } => p == pid,
        WaitOutcome::Signaled { pid: p, signal: _ } => p == pid,
        WaitOutcome::Abnormal => true,
    }
}

/// Relies on nix::sys::wait::waitpid: blocks until the process with
/// the given id changes state and classifies the reported status; on
/// failure returns the OS errno.  How the child terminated depends on
/// its behaviour, so nothing is promised of that; but waitpid(2)
/// fixes that a wait for a positive process id reports on that very
/// process, and the id in the status is returned unchanged.
#[verifier::external_body]
fn sys_waitpid(pid: i32) -> (r: Result<WaitOutcome, i32>)
    ensures
        pid > 0 ==> (r matches Ok(outcome) ==> spec_outcome_names_pid(outcome, pid)),
{
    match nix::sys::wait::waitpid(nix::unistd::Pid::from_raw(pid), None) {
        Ok(nix::sys::wait::WaitStatus::Exited(p, status)) => Ok(WaitOutcome::Exited {
            pid: p.as_raw(),
            status,
        }),
        Ok(nix::sys::wait::WaitStatus::Signaled(p, sig, _)) => Ok(WaitOutcome::Signaled {
            pid: p.as_raw(),
            signal: sig as i32,
        }),
        Ok(_) => Ok(WaitOutcome::Abnormal),
        Err(e) => Err(e as i32),
    }
}

/// Waits for every recorded child in spawn order and returns one
/// termination report per child, stage 0 first; the exit or signal
/// outcome reported for a stage names the process id that was waited
/// on for it.  A failing wait aborts the reaping and is reported as a
/// `WaitError` carrying the stage index it failed on.
pub fn reap_children(pids: &Vec<i32>) -> (r: Result<Vec<ReapReport>, PipelineError>)
    ensures
        r matches Ok(reports) ==> reports@.len() == pids@.len() && (forall|j: int|
            0 <= j < reports@.len() ==> (#[trigger] reports@[j]).stage == j && (pids@[j] > 0
                ==> spec_outcome_names_pid(reports@[j].outcome, pids@[j]))),
        r matches Err(e) ==> e matches PipelineError::WaitError { stage, errno: _ } && stage
            < pids@.len(),
{
    let mut reports: Vec<ReapReport> = Vec::new();
    let mut j: usize = 0;
    while j < pids.len()
        invariant
            j <= pids@.len(),
            reports@.len() == j,
            forall|k: int|
                0 <= k < reports@.len() ==> (#[trigger] reports@[k]).stage == k && (pids@[k] > 0
                    ==> spec_outcome_names_pid(reports@[k].outcome, pids@[k])),
        decreases pids@.len() - j,
    {
        match sys_waitpid(pids[j]) {
            Ok(outcome) => {
                reports.push(ReapReport { stage: j, outcome });
            },
            Err(errno) => {
                return Err(PipelineError::WaitError { stage: j, errno });
            },
        }
        j = j + 1;
    }
    Ok(reports)
}

/// The report line printed for one child's termination.
pub open spec fn spec_report_line(rep: ReapReport) -> Seq<char> {
    match rep.outcome {
        WaitOutcome::Exited { pid, status } => "child (PID="@ + spec_int_digits(pid as int)
            + ") finished: exit, status="@ + spec_int_digits(status as int),
        WaitOutcome::Signaled { pid, signal } => "child (PID="@ + spec_int_digits(pid as int)
            + ") finished: signal, sig="@ + spec_int_digits(signal as int),
        WaitOutcome::Abnormal => "abnormal exit"@,
    }
}

/// Renders the report line for one child's termination.
pub fn format_report(rep: &ReapReport) -> (s: String)
    ensures
        s@ =~= spec_report_line(*rep),
{
    match rep.outcome {
        WaitOutcome::Exited { pid, status } => {
            let mut s: String = "child (PID=".to_owned();
            let pid_str = i32_to_string(pid);
            s.append(pid_str.as_str());
            s.append(") finished: exit, status=");
            let status_str = i32_to_string(status);
            s.append(status_str.as_str());
            s
        },
        WaitOutcome::Signaled { pid, signal } => {
            let mut s: String = "child (PID=".to_owned();
            let pid_str = i32_to_string(pid);
            s.append(pid_str.as_str());
            s.append(") finished: signal, sig=");
            let signal_str = i32_to_string(signal);
            s.append(signal_str.as_str());
            s
        },
        WaitOutcome::Abnormal => "abnormal exit".to_owned(),
    }
}

/// The message a child writes to the error stream when its command
/// cannot be resolved, naming the command.
pub fn command_not_found_message(name: &str) -> (s: String)
    ensures
        s@ =~= name@ + ": command not found"@,
{
    let mut s: String = name.to_owned();
    s.append(": command not found");
    s
}

} // verus!
