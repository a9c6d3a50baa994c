//! The Postgres replication orchestrator.
//!
//! [`PostgresDB`] owns one run: the configuration, the two connection
//! handles, the run state and the run log. It never performs input or
//! output itself. The binary asks [`PostgresDB::next_action`] what to do,
//! performs it, and reports the outcome through
//! [`PostgresDB::handle_event`]; every transition and every log record is
//! pinned to the model in [`crate::model`].

use vstd::prelude::*;
use vstd::string::StringExecFns;
use crate::config::Config;
use crate::email::SMTP;
use crate::events::{Action, ConnectionHandle, Event, FailureReason, ProcessError, RunState};
use crate::model::{
    action_of_state, capture_records, event_records, log_views, next_state, origin_after,
    target_after,
};
use crate::postgres::Postgres;

verus! {

/// The well-known path of the transient dump artifact. It is written by
/// the dump step, consumed by the restore step, and removed only after a
/// fully successful replication.
pub fn dump_artifact_path() -> (p: String)
    ensures
        p@ == "/tmp/clean_dump.sql"@,
{
    String::from_str("/tmp/clean_dump.sql")
}

/// Appending one record keeps the earlier views and adds the new one.
proof fn lemma_log_views_push(v: Seq<String>, s: String)
    ensures
        log_views(v.push(s)) == log_views(v).push(s@),
{
    assert(log_views(v.push(s)) =~= log_views(v).push(s@));
}

/// The run as it stands after closing: both handles taken out, all else
/// kept.
pub open spec fn closed_run(db: PostgresDB) -> PostgresDB {
    PostgresDB { origin_client: None, target_client: None, ..db }
}

/// One replication run from an origin endpoint onto a target endpoint.
pub struct PostgresDB {
    /// The backend configuration of the run, immutable once constructed.
    pub config_postgres: Postgres,
    /// The notification configuration, if any; immutable once constructed.
    pub config_email: Option<SMTP>,
    /// The handle on the verified origin connection, once it exists.
    pub origin_client: Option<ConnectionHandle>,
    /// The handle on the verified target connection, once it exists.
    pub target_client: Option<ConnectionHandle>,
    /// Where the run stands.
    pub state: RunState,
    /// The append-only record of the run, flushed as the report body.
    pub run_log: Vec<String>,
}

impl PostgresDB {
    /// Whether a report is owed after a successful replication.
    pub open spec fn spec_notify_enabled(self) -> bool {
        match self.config_email {
            Some(smtp) => smtp.enabled,
            None => false,
        }
    }

    /// Well-formedness of a run that has not been closed yet: every state
    /// past a verification step still holds the handle that step produced.
    pub open spec fn wf(self) -> bool {
        match self.state {
            RunState::Idle | RunState::Failed(_) => true,
            RunState::OriginVerified => self.origin_client is Some,
            _ => self.origin_client is Some && self.target_client is Some,
        }
    }

    /// Sets up a run over the given configuration: no connections, an
    /// empty log, everything still ahead.
    pub fn new(conf: Config) -> (db: Self)
        ensures
            db.config_postgres == conf.postgres,
            db.config_email == conf.smtp,
            db.origin_client is None,
            db.target_client is None,
            db.state == RunState::Idle,
            db.run_log@.len() == 0,
            db.wf(),
    {
        Self {
            config_postgres: conf.postgres,
            config_email: conf.smtp,
            origin_client: None,
            target_client: None,
            state: RunState::Idle,
            run_log: Vec::new(),
        }
    }

    /// What the binary must do next, exactly as the model orders it.
    pub fn next_action(&self) -> (a: Action)
        ensures
            a == action_of_state(self.state, self.spec_notify_enabled()),
    {
        let notify = match &self.config_email {
            Some(smtp) => smtp.enabled,
            None => false,
        };
        match &self.state {
            RunState::Idle => Action::VerifyOrigin,
            RunState::OriginVerified => Action::VerifyTarget,
            RunState::Connected => Action::RunDump,
            RunState::Dumped => Action::RunRestore,
            RunState::Restored => Action::RemoveArtifact,
            RunState::CleanedUp => if notify {
                Action::SendReport
            } else {
                Action::Finish
            },
            RunState::Notified => Action::Finish,
            RunState::Done => Action::Stop,
            RunState::Failed(_) => Action::Stop,
        }
    }

    /// The guard at the head of replication: both connections must be
    /// present and verified. A run that fails it is over with
    /// [`FailureReason::NotConnected`]; this catches a driver that skipped
    /// the connection phase, not anything expected in normal use.
    pub fn ensure_connected(&mut self) -> (ok: bool)
        ensures
            ok == ((old(self).state is Connected) && (old(self).origin_client is Some) && (old(
                self,
            ).target_client is Some)),
            ok ==> final(self).state == old(self).state,
            !ok ==> final(self).state == RunState::Failed(FailureReason::NotConnected),
            final(self).origin_client == old(self).origin_client,
            final(self).target_client == old(self).target_client,
            final(self).config_postgres == old(self).config_postgres,
            final(self).config_email == old(self).config_email,
            final(self).run_log == old(self).run_log,
    {
        let ok = matches!(self.state, RunState::Connected) && self.origin_client.is_some()
            && self.target_client.is_some();
        if !ok {
            self.state = RunState::Failed(FailureReason::NotConnected);
        }
        ok
    }

    /// Takes both connection handles out, in origin-target order, so the
    /// binary can close the transports behind them. Absent handles come
    /// back as `None` and are no error: a second close is a no-op, and a
    /// never-opened run closes just as quietly.
    pub fn close(&mut self) -> (handles: (Option<ConnectionHandle>, Option<ConnectionHandle>))
        ensures
            *final(self) == closed_run(*old(self)),
            final(self).origin_client is None,
            final(self).target_client is None,
            handles.0 == old(self).origin_client,
            handles.1 == old(self).target_client,
            final(self).state == old(self).state,
            final(self).config_postgres == old(self).config_postgres,
            final(self).config_email == old(self).config_email,
            final(self).run_log == old(self).run_log,
    {
        let origin = self.origin_client.take();
        let target = self.target_client.take();
        (origin, target)
    }

    /// Appends the records of one process capture to the run log:
    /// standard output and standard error each exactly when non-empty,
    /// each under its own heading.
    fn push_capture(&mut self, out_prefix: &str, out: &String, err_prefix: &str, err: &String)
        ensures
            log_views(final(self).run_log@) == log_views(old(self).run_log@) + capture_records(
                out_prefix@ + out@,
                out@,
                err_prefix@ + err@,
                err@,
            ),
            final(self).state == old(self).state,
            final(self).origin_client == old(self).origin_client,
            final(self).target_client == old(self).target_client,
            final(self).config_postgres == old(self).config_postgres,
            final(self).config_email == old(self).config_email,
    {
        let ghost log0 = self.run_log@;
        if !out.as_str().is_empty() {
            let mut rec = String::from_str(out_prefix);
            rec.append(out.as_str());
            proof {
                lemma_log_views_push(self.run_log@, rec);
            }
            self.run_log.push(rec);
        }
        if !err.as_str().is_empty() {
            let mut rec = String::from_str(err_prefix);
            rec.append(err.as_str());
            proof {
                lemma_log_views_push(self.run_log@, rec);
            }
            self.run_log.push(rec);
        }
        proof {
            assert(log_views(self.run_log@) =~= log_views(log0) + capture_records(
                out_prefix@ + out@,
                out@,
                err_prefix@ + err@,
                err@,
            ));
        }
    }

    /// Absorbs one outcome of outside work: moves the run state exactly
    /// as the model's transition relation says, stores the handle a
    /// successful verification produced, and appends exactly the records
    /// the model lists for the event. Well-formedness is preserved.
    pub fn handle_event(&mut self, e: Event)
        ensures
            final(self).state == next_state(old(self).state, e),
            log_views(final(self).run_log@) == log_views(old(self).run_log@) + event_records(
                old(self).config_postgres.origin_host@,
                old(self).config_postgres.target_host@,
                old(self).state,
                e,
            ),
            final(self).origin_client == origin_after(old(self).state, old(self).origin_client, e),
            final(self).target_client == target_after(old(self).state, old(self).target_client, e),
            final(self).config_postgres == old(self).config_postgres,
            final(self).config_email == old(self).config_email,
            old(self).wf() ==> final(self).wf(),
    {
        let ghost pre = *self;
        let ghost ev = e;
        match e {
            Event::OriginVerified(r) => {
                if matches!(self.state, RunState::Idle) {
                    match r {
                        Ok(h) => {
                            self.origin_client = Some(h);
                            self.state = RunState::OriginVerified;
                        },
                        Err(c) => {
                            self.state = RunState::Failed(FailureReason::OriginConnect(c));
                        },
                    }
                }
            },
            Event::TargetVerified(r) => {
                if matches!(self.state, RunState::OriginVerified) {
                    match r {
                        Ok(h) => {
                            self.target_client = Some(h);
                            self.state = RunState::Connected;
                        },
                        Err(c) => {
                            self.state = RunState::Failed(FailureReason::TargetConnect(c));
                        },
                    }
                }
            },
            Event::DumpFinished(r) => {
                if matches!(self.state, RunState::Connected) {
                    match r {
                        Ok(out) => {
                            self.push_capture(
                                "pg_dump stdout:\n",
                                &out.stdout,
                                "pg_dump stderr:\n",
                                &out.stderr,
                            );
                            let rec = String::from_str(
                                "Data successfully dumped to /tmp/clean_dump.sql",
                            );
                            proof {
                                lemma_log_views_push(self.run_log@, rec);
                            }
                            self.run_log.push(rec);
                            self.state = RunState::Dumped;
                        },
                        Err(pe) => {
                            match pe {
                                ProcessError::NonZeroExit { code, stdout, stderr } => {
                                    self.push_capture(
                                        "pg_dump stdout:\n",
                                        &stdout,
                                        "pg_dump stderr:\n",
                                        &stderr,
                                    );
                                    self.state = RunState::Failed(
                                        FailureReason::Dump(
                                            ProcessError::NonZeroExit { code, stdout, stderr },
                                        ),
                                    );
                                },
                                ProcessError::SpawnFailed => {
                                    self.state = RunState::Failed(
                                        FailureReason::Dump(ProcessError::SpawnFailed),
                                    );
                                },
                            }
                        },
                    }
                }
            },
            Event::RestoreFinished(r) => {
                if matches!(self.state, RunState::Dumped) {
                    match r {
                        Ok(out) => {
                            self.push_capture(
                                "psql stdout:\n",
                                &out.stdout,
                                "psql stderr:\n",
                                &out.stderr,
                            );
                            let mut rec = String::from_str(
                                "Successfully replicated all data from ",
                            );
                            rec.append(self.config_postgres.origin_host.as_str());
                            rec.append(" to ");
                            rec.append(self.config_postgres.target_host.as_str());
                            proof {
                                lemma_log_views_push(self.run_log@, rec);
                            }
                            self.run_log.push(rec);
                            self.state = RunState::Restored;
                        },
                        Err(pe) => {
                            match pe {
                                ProcessError::NonZeroExit { code, stdout, stderr } => {
                                    self.push_capture(
                                        "psql stdout:\n",
                                        &stdout,
                                        "psql stderr:\n",
                                        &stderr,
                                    );
                                    self.state = RunState::Failed(
                                        FailureReason::Restore(
                                            ProcessError::NonZeroExit { code, stdout, stderr },
                                        ),
                                    );
                                },
                                ProcessError::SpawnFailed => {
                                    self.state = RunState::Failed(
                                        FailureReason::Restore(ProcessError::SpawnFailed),
                                    );
                                },
                            }
                        },
                    }
                }
            },
            Event::ArtifactRemoved(removed) => {
                if matches!(self.state, RunState::Restored) {
                    if !removed {
                        let rec = String::from_str(
                            "Failed to remove the dump artifact /tmp/clean_dump.sql",
                        );
                        proof {
                            lemma_log_views_push(self.run_log@, rec);
                        }
                        self.run_log.push(rec);
                    }
                    self.state = RunState::CleanedUp;
                }
            },
            Event::ReportSent(ok) => {
                if matches!(self.state, RunState::CleanedUp) {
                    if ok {
                        self.state = RunState::Notified;
                    } else {
                        self.state = RunState::Failed(FailureReason::Notify);
                    }
                }
            },
            Event::RunEnded => {
                if matches!(self.state, RunState::CleanedUp) || matches!(
                    self.state,
                    RunState::Notified,
                ) {
                    self.state = RunState::Done;
                }
            },
        }
        proof {
            assert(log_views(self.run_log@) =~= log_views(pre.run_log@) + event_records(
                pre.config_postgres.origin_host@,
                pre.config_postgres.target_host@,
                pre.state,
                ev,
            ));
        }
    }
}

} // verus!
