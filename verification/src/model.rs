//! The orchestrator's transition relation, stated as specification
//! functions: how each event moves a run's state forward, which log
//! records it appends, and what a driver that follows the orchestrator's
//! instructions may do. The laws of the library are proved over these
//! functions; the executable orchestrator is verified against them.

use vstd::prelude::*;
use crate::events::{Action, ConnectionHandle, Event, FailureReason, ProcessError, RunState};

verus! {

/// The run state after `e` arrives in state `s`.
///
/// Unexpected events (an outcome no pending action asked for) leave the
/// state unchanged; [`RunState::Failed`] absorbs every event.
pub open spec fn next_state(s: RunState, e: Event) -> RunState {
    match (s, e) {
        (RunState::Idle, Event::OriginVerified(Ok(_))) => RunState::OriginVerified,
        (RunState::Idle, Event::OriginVerified(Err(c))) => RunState::Failed(
            FailureReason::OriginConnect(c),
        ),
        (RunState::OriginVerified, Event::TargetVerified(Ok(_))) => RunState::Connected,
        (RunState::OriginVerified, Event::TargetVerified(Err(c))) => RunState::Failed(
            FailureReason::TargetConnect(c),
        ),
        (RunState::Connected, Event::DumpFinished(Ok(_))) => RunState::Dumped,
        (RunState::Connected, Event::DumpFinished(Err(p))) => RunState::Failed(
            FailureReason::Dump(p),
        ),
        (RunState::Dumped, Event::RestoreFinished(Ok(_))) => RunState::Restored,
        (RunState::Dumped, Event::RestoreFinished(Err(p))) => RunState::Failed(
            FailureReason::Restore(p),
        ),
        (RunState::Restored, Event::ArtifactRemoved(_)) => RunState::CleanedUp,
        (RunState::CleanedUp, Event::ReportSent(true)) => RunState::Notified,
        (RunState::CleanedUp, Event::ReportSent(false)) => RunState::Failed(FailureReason::Notify),
        (RunState::CleanedUp, Event::RunEnded) => RunState::Done,
        (RunState::Notified, Event::RunEnded) => RunState::Done,
        (s2, _) => s2,
    }
}

/// What the orchestrator asks for in state `s`, with `notify` saying
/// whether a report is owed after a successful replication.
pub open spec fn action_of_state(s: RunState, notify: bool) -> Action {
    match s {
        RunState::Idle => Action::VerifyOrigin,
        RunState::OriginVerified => Action::VerifyTarget,
        RunState::Connected => Action::RunDump,
        RunState::Dumped => Action::RunRestore,
        RunState::Restored => Action::RemoveArtifact,
        RunState::CleanedUp => if notify {
            Action::SendReport
        } else {
            Action::Finish
        },
        RunState::Notified => Action::Finish,
        RunState::Done => Action::Stop,
        RunState::Failed(_) => Action::Stop,
    }
}

/// Whether `e` is an outcome of performing `a`. [`Action::Stop`] asks for
/// nothing, so nothing answers it.
pub open spec fn responds(a: Action, e: Event) -> bool {
    match (a, e) {
        (Action::VerifyOrigin, Event::OriginVerified(_)) => true,
        (Action::VerifyTarget, Event::TargetVerified(_)) => true,
        (Action::RunDump, Event::DumpFinished(_)) => true,
        (Action::RunRestore, Event::RestoreFinished(_)) => true,
        (Action::RemoveArtifact, Event::ArtifactRemoved(_)) => true,
        (Action::SendReport, Event::ReportSent(_)) => true,
        (Action::Finish, Event::RunEnded) => true,
        _ => false,
    }
}

/// A driver is compliant when every event it reports answers the action
/// the orchestrator asked for in the state the event arrived in.
pub open spec fn compliant(s0: RunState, notify: bool, es: Seq<Event>) -> bool
    decreases es.len(),
{
    es.len() == 0 || {
        &&& responds(action_of_state(s0, notify), es[0])
        &&& compliant(next_state(s0, es[0]), notify, es.drop_first())
    }
}

/// A compliant trace is complete when the run is over at its end: the
/// orchestrator asks for nothing more.
pub open spec fn complete(s0: RunState, notify: bool, es: Seq<Event>) -> bool {
    &&& compliant(s0, notify, es)
    &&& action_of_state(state_at(s0, es, es.len() as int), notify) == Action::Stop
}

/// The run state after the first `i` events of `es`, starting from `s0`.
pub open spec fn state_at(s0: RunState, es: Seq<Event>, i: int) -> RunState
    decreases i,
{
    if i <= 0 {
        s0
    } else {
        next_state(state_at(s0, es, i - 1), es[i - 1])
    }
}

/// How far a run has come; compliant steps strictly increase it, so no
/// state is ever revisited.
pub open spec fn rank(s: RunState) -> int {
    match s {
        RunState::Idle => 0,
        RunState::OriginVerified => 1,
        RunState::Connected => 2,
        RunState::Dumped => 3,
        RunState::Restored => 4,
        RunState::CleanedUp => 5,
        RunState::Notified => 6,
        RunState::Done => 7,
        RunState::Failed(_) => 8,
    }
}

/// Whether the dump artifact exists on disk after `e`, given that it
/// existed (`present`) before, counting only the effects of what the
/// orchestrator orders: a successful dump writes the artifact, a
/// successful removal deletes it, and no other ordered action touches
/// it. A dump that failed after spawning may itself have written a
/// partial file; this account leaves such writes out, so the laws built
/// on it speak of the orchestrator's cleanup, never of the dump tool's
/// own writing.
pub open spec fn artifact_after(present: bool, e: Event) -> bool {
    match e {
        Event::DumpFinished(Ok(_)) => true,
        Event::ArtifactRemoved(removed) => if removed {
            false
        } else {
            present
        },
        _ => present,
    }
}

/// Whether the artifact exists after the first `i` events of `es`,
/// starting from `p0`.
pub open spec fn artifact_at(p0: bool, es: Seq<Event>, i: int) -> bool
    decreases i,
{
    if i <= 0 {
        p0
    } else {
        artifact_after(artifact_at(p0, es, i - 1), es[i - 1])
    }
}

/// The orchestrator's handle on the origin connection after `e`.
pub open spec fn origin_after(
    s: RunState,
    origin: Option<ConnectionHandle>,
    e: Event,
) -> Option<ConnectionHandle> {
    match (s, e) {
        (RunState::Idle, Event::OriginVerified(Ok(h))) => Some(h),
        _ => origin,
    }
}

/// The orchestrator's handle on the target connection after `e`.
pub open spec fn target_after(
    s: RunState,
    target: Option<ConnectionHandle>,
    e: Event,
) -> Option<ConnectionHandle> {
    match (s, e) {
        (RunState::OriginVerified, Event::TargetVerified(Ok(h))) => Some(h),
        _ => target,
    }
}

/// The views of the records of a run log.
pub open spec fn log_views(v: Seq<String>) -> Seq<Seq<char>> {
    v.map_values(|s: String| s@)
}

/// The record holding a dump step's standard output.
pub open spec fn dump_stdout_record(out: Seq<char>) -> Seq<char> {
    "pg_dump stdout:\n"@ + out
}

/// The record holding a dump step's standard error.
pub open spec fn dump_stderr_record(err: Seq<char>) -> Seq<char> {
    "pg_dump stderr:\n"@ + err
}

/// The record holding a restore step's standard output.
pub open spec fn restore_stdout_record(out: Seq<char>) -> Seq<char> {
    "psql stdout:\n"@ + out
}

/// The record holding a restore step's standard error.
pub open spec fn restore_stderr_record(err: Seq<char>) -> Seq<char> {
    "psql stderr:\n"@ + err
}

/// The status line appended when the dump step succeeds.
pub open spec fn dump_success_record() -> Seq<char> {
    "Data successfully dumped to /tmp/clean_dump.sql"@
}

/// The status line appended when the restore step succeeds.
pub open spec fn restore_success_record(origin_host: Seq<char>, target_host: Seq<char>) -> Seq<
    char,
> {
    "Successfully replicated all data from "@ + origin_host + " to "@ + target_host
}

/// The record appended when removing the artifact fails; the failure is
/// logged and nothing more.
pub open spec fn cleanup_failure_record() -> Seq<char> {
    "Failed to remove the dump artifact /tmp/clean_dump.sql"@
}

/// The records a process capture contributes: standard output and
/// standard error each appear exactly when non-empty, output first.
pub open spec fn capture_records(
    stdout_record: Seq<char>,
    out: Seq<char>,
    stderr_record: Seq<char>,
    err: Seq<char>,
) -> Seq<Seq<char>> {
    (if out.len() > 0 {
        seq![stdout_record]
    } else {
        Seq::<Seq<char>>::empty()
    }) + (if err.len() > 0 {
        seq![stderr_record]
    } else {
        Seq::<Seq<char>>::empty()
    })
}

/// The records of a dump step's capture.
pub open spec fn dump_capture_records(out: Seq<char>, err: Seq<char>) -> Seq<Seq<char>> {
    capture_records(dump_stdout_record(out), out, dump_stderr_record(err), err)
}

/// The records of a restore step's capture.
pub open spec fn restore_capture_records(out: Seq<char>, err: Seq<char>) -> Seq<Seq<char>> {
    capture_records(restore_stdout_record(out), out, restore_stderr_record(err), err)
}

/// Every record `e` appends to the run log when it arrives in state `s`:
/// the captures of both steps (logged on success and on failure alike),
/// the status lines of the two successful steps, and the note of a failed
/// cleanup.
pub open spec fn event_records(
    origin_host: Seq<char>,
    target_host: Seq<char>,
    s: RunState,
    e: Event,
) -> Seq<Seq<char>> {
    match (s, e) {
        (RunState::Connected, Event::DumpFinished(Ok(out))) => dump_capture_records(
            out.stdout@,
            out.stderr@,
        ) + seq![dump_success_record()],
        (
            RunState::Connected,
            Event::DumpFinished(Err(ProcessError::NonZeroExit { code: _, stdout, stderr })),
        ) => dump_capture_records(stdout@, stderr@),
        (RunState::Dumped, Event::RestoreFinished(Ok(out))) => restore_capture_records(
            out.stdout@,
            out.stderr@,
        ) + seq![restore_success_record(origin_host, target_host)],
        (
            RunState::Dumped,
            Event::RestoreFinished(Err(ProcessError::NonZeroExit { code: _, stdout, stderr })),
        ) => restore_capture_records(stdout@, stderr@),
        (RunState::Restored, Event::ArtifactRemoved(false)) => seq![cleanup_failure_record()],
        _ => Seq::<Seq<char>>::empty(),
    }
}

} // verus!
