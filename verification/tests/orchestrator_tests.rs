use cnc_rs::config::Config;
use cnc_rs::email::SMTP;
use cnc_rs::events::{
    Action, ConnectError, ConnectionHandle, Event, FailureReason, ProcessError, RunOutput,
    RunState,
};
use cnc_rs::postgres::{BackupType, Postgres};
use cnc_rs::postgresdb::PostgresDB;

fn sample_postgres() -> Postgres {
    Postgres {
        enabled: true,
        origin_host: String::from("origin.example"),
        origin_user: String::from("alice"),
        origin_password: String::from("pw-origin"),
        origin_port: String::from("5432"),
        origin_database: String::from("inventory"),
        target_host: String::from("target.example"),
        target_user: String::from("bob"),
        target_password: String::from("pw-target"),
        target_port: String::from("5433"),
        target_database: String::from("inventory_copy"),
        backup_type: BackupType::Full,
        email: false,
    }
}

fn sample_smtp(enabled: bool) -> SMTP {
    SMTP {
        enabled,
        username: String::from("mailer"),
        password: String::from("pw-mail"),
        smtp_host: String::from("smtp.example"),
        smtp_port: 587,
        from: String::from("mailer@example.org"),
        to: vec![String::from("ops@example.org")],
        cc: None,
    }
}

fn run_over(smtp: Option<SMTP>) -> PostgresDB {
    PostgresDB::new(Config { postgres: sample_postgres(), smtp })
}

fn handle(host: &str) -> ConnectionHandle {
    ConnectionHandle { host: String::from(host) }
}

fn ok_output(stdout: &str, stderr: &str) -> Result<RunOutput, ProcessError> {
    Ok(RunOutput { stdout: String::from(stdout), stderr: String::from(stderr) })
}

/// Drives a freshly constructed run through both verifications.
fn connect_both(db: &mut PostgresDB) {
    assert_eq!(db.next_action(), Action::VerifyOrigin);
    db.handle_event(Event::OriginVerified(Ok(handle("origin.example"))));
    assert_eq!(db.next_action(), Action::VerifyTarget);
    db.handle_event(Event::TargetVerified(Ok(handle("target.example"))));
}

#[test]
fn new_run_is_idle_and_verifies_origin_first() {
    let db = run_over(None);
    assert!(matches!(db.state, RunState::Idle));
    assert!(db.origin_client.is_none());
    assert!(db.target_client.is_none());
    assert_eq!(db.run_log.len(), 0);
    assert_eq!(db.next_action(), Action::VerifyOrigin);
}

#[test]
fn healthy_endpoints_connect_and_dump_comes_before_restore() {
    let mut db = run_over(None);
    connect_both(&mut db);
    assert!(matches!(db.state, RunState::Connected));
    assert!(db.origin_client.is_some());
    assert!(db.target_client.is_some());
    assert!(db.ensure_connected());
    // the first process the orchestrator orders is the dump ...
    assert_eq!(db.next_action(), Action::RunDump);
    db.handle_event(Event::DumpFinished(ok_output("", "")));
    // ... and only after its success the restore
    assert_eq!(db.next_action(), Action::RunRestore);
}

#[test]
fn dump_failure_stops_run_without_restore_or_cleanup() {
    let mut db = run_over(None);
    connect_both(&mut db);
    db.handle_event(Event::DumpFinished(Err(ProcessError::NonZeroExit {
        code: 1,
        stdout: String::new(),
        stderr: String::from("connection to server failed"),
    })));
    assert!(matches!(
        db.state,
        RunState::Failed(FailureReason::Dump(ProcessError::NonZeroExit { code: 1, .. }))
    ));
    // no restore, no artifact removal: the run is over
    assert_eq!(db.next_action(), Action::Stop);
    // the failing capture is still preserved for the operator
    assert_eq!(db.run_log, vec![String::from("pg_dump stderr:\nconnection to server failed")]);
}

#[test]
fn dump_spawn_failure_is_its_own_error() {
    let mut db = run_over(None);
    connect_both(&mut db);
    db.handle_event(Event::DumpFinished(Err(ProcessError::SpawnFailed)));
    assert!(matches!(db.state, RunState::Failed(FailureReason::Dump(ProcessError::SpawnFailed))));
    assert_eq!(db.next_action(), Action::Stop);
}

#[test]
fn run_log_records_are_exact() {
    let mut db = run_over(None);
    connect_both(&mut db);
    db.handle_event(Event::DumpFinished(ok_output("creating table a\n", "notice: skipped\n")));
    assert_eq!(
        db.run_log,
        vec![
            String::from("pg_dump stdout:\ncreating table a\n"),
            String::from("pg_dump stderr:\nnotice: skipped\n"),
            String::from("Data successfully dumped to /tmp/clean_dump.sql"),
        ]
    );
    db.handle_event(Event::RestoreFinished(ok_output("SET\nCREATE TABLE\n", "")));
    assert_eq!(db.run_log.len(), 5);
    assert_eq!(db.run_log[3], String::from("psql stdout:\nSET\nCREATE TABLE\n"));
    assert_eq!(
        db.run_log[4],
        String::from("Successfully replicated all data from origin.example to target.example")
    );
}

#[test]
fn empty_captures_add_no_records() {
    let mut db = run_over(None);
    connect_both(&mut db);
    db.handle_event(Event::DumpFinished(ok_output("", "")));
    assert_eq!(db.run_log, vec![String::from("Data successfully dumped to /tmp/clean_dump.sql")]);
}

#[test]
fn restore_success_orders_cleanup_and_cleanup_failure_is_non_fatal() {
    let mut db = run_over(None);
    connect_both(&mut db);
    db.handle_event(Event::DumpFinished(ok_output("", "")));
    db.handle_event(Event::RestoreFinished(ok_output("", "")));
    assert!(matches!(db.state, RunState::Restored));
    assert_eq!(db.next_action(), Action::RemoveArtifact);
    db.handle_event(Event::ArtifactRemoved(false));
    // the failure is logged, the run still counts as cleaned up
    assert!(matches!(db.state, RunState::CleanedUp));
    assert!(db
        .run_log
        .contains(&String::from("Failed to remove the dump artifact /tmp/clean_dump.sql")));
    assert_eq!(db.next_action(), Action::Finish);
}

#[test]
fn notification_is_ordered_only_when_enabled_and_successful() {
    // enabled: after cleanup the report is ordered
    let mut db = run_over(Some(sample_smtp(true)));
    connect_both(&mut db);
    db.handle_event(Event::DumpFinished(ok_output("", "")));
    db.handle_event(Event::RestoreFinished(ok_output("", "")));
    db.handle_event(Event::ArtifactRemoved(true));
    assert_eq!(db.next_action(), Action::SendReport);
    db.handle_event(Event::ReportSent(true));
    assert!(matches!(db.state, RunState::Notified));
    assert_eq!(db.next_action(), Action::Finish);
    db.handle_event(Event::RunEnded);
    assert!(matches!(db.state, RunState::Done));

    // present but disabled: no report is ever ordered
    let mut db = run_over(Some(sample_smtp(false)));
    connect_both(&mut db);
    db.handle_event(Event::DumpFinished(ok_output("", "")));
    db.handle_event(Event::RestoreFinished(ok_output("", "")));
    db.handle_event(Event::ArtifactRemoved(true));
    assert_eq!(db.next_action(), Action::Finish);
}

#[test]
fn notification_failure_surfaces_after_successful_replication() {
    let mut db = run_over(Some(sample_smtp(true)));
    connect_both(&mut db);
    db.handle_event(Event::DumpFinished(ok_output("", "")));
    db.handle_event(Event::RestoreFinished(ok_output("", "")));
    db.handle_event(Event::ArtifactRemoved(true));
    db.handle_event(Event::ReportSent(false));
    assert!(matches!(db.state, RunState::Failed(FailureReason::Notify)));
    assert_eq!(db.next_action(), Action::Stop);
}

#[test]
fn report_body_contains_every_record() {
    let mut db = run_over(Some(sample_smtp(true)));
    connect_both(&mut db);
    db.handle_event(Event::DumpFinished(ok_output("creating table a", "one warning")));
    db.handle_event(Event::RestoreFinished(ok_output("CREATE TABLE", "")));
    db.handle_event(Event::ArtifactRemoved(true));
    let body = db.report_body();
    for record in db.run_log.iter() {
        assert!(body.contains(record.as_str()));
    }
    assert_eq!(
        body,
        String::from(
            "pg_dump stdout:\ncreating table a\n\
             pg_dump stderr:\none warning\n\
             Data successfully dumped to /tmp/clean_dump.sql\n\
             psql stdout:\nCREATE TABLE\n\
             Successfully replicated all data from origin.example to target.example"
        )
    );
}

#[test]
fn report_body_of_an_empty_log_is_empty() {
    let db = run_over(None);
    assert_eq!(db.report_body(), String::new());
}

#[test]
fn ensure_connected_guards_a_skipped_connect() {
    let mut db = run_over(None);
    assert!(!db.ensure_connected());
    assert!(matches!(db.state, RunState::Failed(FailureReason::NotConnected)));
    assert_eq!(db.next_action(), Action::Stop);
}

#[test]
fn close_is_idempotent_and_never_errors() {
    // never opened: closing finds nothing and changes nothing
    let mut db = run_over(None);
    let (origin, target) = db.close();
    assert!(origin.is_none() && target.is_none());
    assert!(matches!(db.state, RunState::Idle));

    // opened: the first close hands both handles out, the second none
    let mut db = run_over(None);
    connect_both(&mut db);
    let (origin, target) = db.close();
    assert_eq!(origin.unwrap().host, String::from("origin.example"));
    assert_eq!(target.unwrap().host, String::from("target.example"));
    let (origin, target) = db.close();
    assert!(origin.is_none() && target.is_none());
    assert!(matches!(db.state, RunState::Connected));
}

#[test]
fn scenario_origin_ok_target_unreachable() {
    let mut db = run_over(None);
    db.handle_event(Event::OriginVerified(Ok(handle("origin.example"))));
    db.handle_event(Event::TargetVerified(Err(ConnectError::Unreachable)));
    assert!(matches!(
        db.state,
        RunState::Failed(FailureReason::TargetConnect(ConnectError::Unreachable))
    ));
    // no dump is ever ordered
    assert_eq!(db.next_action(), Action::Stop);
    assert_eq!(db.run_log.len(), 0);
}

#[test]
fn scenario_origin_unreachable_fails_before_target() {
    let mut db = run_over(None);
    db.handle_event(Event::OriginVerified(Err(ConnectError::Unreachable)));
    assert!(matches!(
        db.state,
        RunState::Failed(FailureReason::OriginConnect(ConnectError::Unreachable))
    ));
    assert_eq!(db.next_action(), Action::Stop);
    assert!(db.target_client.is_none());
}

#[test]
fn scenario_ping_failure_is_distinguished() {
    let mut db = run_over(None);
    db.handle_event(Event::OriginVerified(Err(ConnectError::PingFailed)));
    assert!(matches!(
        db.state,
        RunState::Failed(FailureReason::OriginConnect(ConnectError::PingFailed))
    ));
}

#[test]
fn scenario_restore_failure_keeps_artifact_and_sends_no_mail() {
    let mut db = run_over(Some(sample_smtp(true)));
    connect_both(&mut db);
    db.handle_event(Event::DumpFinished(ok_output("", "")));
    db.handle_event(Event::RestoreFinished(Err(ProcessError::NonZeroExit {
        code: 1,
        stdout: String::new(),
        stderr: String::from("relation already exists"),
    })));
    assert!(matches!(
        db.state,
        RunState::Failed(FailureReason::Restore(ProcessError::NonZeroExit { code: 1, .. }))
    ));
    // neither removal nor report is ordered, although notification is enabled
    assert_eq!(db.next_action(), Action::Stop);
    assert!(db.run_log.contains(&String::from("pg_dump stderr:\nrelation already exists")) == false);
    assert!(db.run_log.contains(&String::from("psql stderr:\nrelation already exists")));
}

#[test]
fn scenario_full_success_without_notification() {
    let mut db = run_over(None);
    connect_both(&mut db);
    db.handle_event(Event::DumpFinished(ok_output("", "")));
    db.handle_event(Event::RestoreFinished(ok_output("", "")));
    db.handle_event(Event::ArtifactRemoved(true));
    // notification absent: the run finishes without a report
    assert_eq!(db.next_action(), Action::Finish);
    db.handle_event(Event::RunEnded);
    assert!(matches!(db.state, RunState::Done));
    assert_eq!(db.next_action(), Action::Stop);
    let (origin, target) = db.close();
    assert!(origin.is_some() && target.is_some());
}
