//! Outcomes, events and actions exchanged between the orchestrator and
//! the binary that performs the run's input and output.

use vstd::prelude::*;
use vstd::string::StringExecFns;

verus! {

/// Opaque stand-in for a live connection to one endpoint.
///
/// The binary owns the actual transport; it keeps one real client per
/// handle the orchestrator holds, created together and dropped together.
#[derive(Debug, Clone)]
pub struct ConnectionHandle {
    /// Host of the endpoint the connection was opened against.
    pub host: String,
}

/// Why verifying one endpoint failed.
#[derive(Debug, Clone)]
pub enum ConnectError {
    /// The transport connection could not be established.
    Unreachable,
    /// The connection opened but the liveness query errored.
    PingFailed,
}

/// The captured output of an external process that ran and exited zero.
#[derive(Debug, Clone)]
pub struct RunOutput {
    pub stdout: String,
    pub stderr: String,
}

/// Why running an external process failed.
#[derive(Debug, Clone)]
pub enum ProcessError {
    /// The executable could not be launched at all.
    SpawnFailed,
    /// The process ran but exited non-zero; the full capture is kept so
    /// the run log preserves the forensic detail.
    NonZeroExit { code: i32, stdout: String, stderr: String },
}

/// Why a run ended in the absorbing failure state.
#[derive(Debug, Clone)]
pub enum FailureReason {
    /// Replication was requested without both connections present.
    NotConnected,
    /// Verifying the origin endpoint failed; no dump was attempted.
    OriginConnect(ConnectError),
    /// Verifying the target endpoint failed; no dump was attempted.
    TargetConnect(ConnectError),
    /// The dump step failed; no restore was attempted.
    Dump(ProcessError),
    /// The restore step failed; the artifact is left for diagnosis.
    Restore(ProcessError),
    /// Replication itself succeeded but the report was not delivered.
    Notify,
    /// Closing one of the transports reported an error; both closes were
    /// still attempted, and a run that never opened one cannot fail so.
    CloseFailed,
}

impl FailureReason {
    /// The operator-facing description of each failure.
    pub open spec fn spec_describe(self) -> Seq<char> {
        match self {
            FailureReason::NotConnected => "the database clients are not connected"@,
            FailureReason::OriginConnect(ConnectError::Unreachable) => {
                "cannot connect to the Postgres origin database"@
            },
            FailureReason::OriginConnect(ConnectError::PingFailed) => {
                "cannot ping the Postgres origin database"@
            },
            FailureReason::TargetConnect(ConnectError::Unreachable) => {
                "cannot connect to the Postgres target database"@
            },
            FailureReason::TargetConnect(ConnectError::PingFailed) => {
                "cannot ping the Postgres target database"@
            },
            FailureReason::Dump(ProcessError::SpawnFailed) => {
                "failed to start the pg_dump process"@
            },
            FailureReason::Dump(ProcessError::NonZeroExit { .. }) => {
                "the pg_dump process exited with an error"@
            },
            FailureReason::Restore(ProcessError::SpawnFailed) => {
                "failed to start the psql process for restoring"@
            },
            FailureReason::Restore(ProcessError::NonZeroExit { .. }) => {
                "the psql process exited with an error"@
            },
            FailureReason::Notify => "could not send the report email"@,
            FailureReason::CloseFailed => "closing a database connection reported an error"@,
        }
    }

    /// Renders the failure for the operator.
    pub fn describe(&self) -> (r: String)
        ensures
            r@ == self.spec_describe(),
    {
        match self {
            FailureReason::NotConnected => String::from_str(
                "the database clients are not connected",
            ),
            FailureReason::OriginConnect(ConnectError::Unreachable) => String::from_str(
                "cannot connect to the Postgres origin database",
            ),
            FailureReason::OriginConnect(ConnectError::PingFailed) => String::from_str(
                "cannot ping the Postgres origin database",
            ),
            FailureReason::TargetConnect(ConnectError::Unreachable) => String::from_str(
                "cannot connect to the Postgres target database",
            ),
            FailureReason::TargetConnect(ConnectError::PingFailed) => String::from_str(
                "cannot ping the Postgres target database",
            ),
            FailureReason::Dump(ProcessError::SpawnFailed) => String::from_str(
                "failed to start the pg_dump process",
            ),
            FailureReason::Dump(ProcessError::NonZeroExit { .. }) => String::from_str(
                "the pg_dump process exited with an error",
            ),
            FailureReason::Restore(ProcessError::SpawnFailed) => String::from_str(
                "failed to start the psql process for restoring",
            ),
            FailureReason::Restore(ProcessError::NonZeroExit { .. }) => String::from_str(
                "the psql process exited with an error",
            ),
            FailureReason::Notify => String::from_str("could not send the report email"),
            FailureReason::CloseFailed => String::from_str(
                "closing a database connection reported an error",
            ),
        }
    }
}

/// The state of one replication run.
#[derive(Debug, Clone)]
pub enum RunState {
    /// Nothing has happened yet.
    Idle,
    /// The origin endpoint is verified; the target is still pending.
    OriginVerified,
    /// Both endpoints are verified.
    Connected,
    /// The dump step succeeded; the artifact is on disk.
    Dumped,
    /// The restore step succeeded.
    Restored,
    /// Artifact cleanup was attempted (its failure is non-fatal).
    CleanedUp,
    /// The report was delivered.
    Notified,
    /// The run is over and succeeded.
    Done,
    /// The run is over and failed; this state absorbs every event.
    Failed(FailureReason),
}

/// An outcome of outside work, reported back to the orchestrator.
pub enum Event {
    /// The origin endpoint was verified, or could not be.
    OriginVerified(Result<ConnectionHandle, ConnectError>),
    /// The target endpoint was verified, or could not be.
    TargetVerified(Result<ConnectionHandle, ConnectError>),
    /// The dump process finished, or could not run.
    DumpFinished(Result<RunOutput, ProcessError>),
    /// The restore process finished, or could not run.
    RestoreFinished(Result<RunOutput, ProcessError>),
    /// Removing the dump artifact succeeded or failed.
    ArtifactRemoved(bool),
    /// Delivering the report succeeded or failed.
    ReportSent(bool),
    /// The driver acknowledged that nothing outside remains to be done.
    RunEnded,
}

/// What the orchestrator asks the binary to do next.
#[derive(Clone, Copy, PartialEq, Eq, Structural, Debug)]
pub enum Action {
    /// Verify the origin endpoint (always before the target).
    VerifyOrigin,
    /// Verify the target endpoint.
    VerifyTarget,
    /// Run the external dump utility against the origin.
    RunDump,
    /// Run the external restore utility against the target.
    RunRestore,
    /// Remove the dump artifact from disk.
    RemoveArtifact,
    /// Deliver the run report.
    SendReport,
    /// Nothing outside remains; acknowledge with [`Event::RunEnded`].
    Finish,
    /// The run is over; only closing the connections remains.
    Stop,
}

/// Classifies the capture of an external process that ran: exit code
/// zero is success, anything else keeps the full capture in the error.
pub fn classify_exit(code: i32, stdout: String, stderr: String) -> (r: Result<
    RunOutput,
    ProcessError,
>)
    ensures
        code == 0 ==> r == Ok::<RunOutput, ProcessError>(RunOutput { stdout, stderr }),
        code != 0 ==> r == Err::<RunOutput, ProcessError>(
            ProcessError::NonZeroExit { code, stdout, stderr },
        ),
{
    if code == 0 {
        Ok(RunOutput { stdout, stderr })
    } else {
        Err(ProcessError::NonZeroExit { code, stdout, stderr })
    }
}

} // verus!
