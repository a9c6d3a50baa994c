//! The laws of the orchestrator, proved over the model in
//! [`crate::model`]: ordering of dump and restore, the finality of a
//! failure, the fate of the dump artifact, when a report is sent, and the
//! idempotence of closing. A compliant trace is any sequence of outcomes
//! a driver can produce while following the orchestrator's instructions,
//! so each law holds of every run the verified orchestrator can take part
//! in.

use vstd::prelude::*;
use crate::events::{
    Action, ConnectionHandle, Event, FailureReason, ProcessError, RunOutput, RunState,
};
use crate::model::{
    action_of_state, artifact_at, compliant, complete, next_state, rank, responds, state_at,
};
use crate::postgresdb::{closed_run, PostgresDB};

verus! {

/// A trace seen from its second event on is a trace of the successor state.
proof fn lemma_state_at_shift(s0: RunState, es: Seq<Event>, i: int)
    requires
        1 <= i <= es.len(),
    ensures
        state_at(s0, es, i) == state_at(next_state(s0, es[0]), es.drop_first(), i - 1),
    decreases i,
{
    if i == 1 {
        assert(state_at(s0, es, 0) == s0);
        assert(state_at(next_state(s0, es[0]), es.drop_first(), 0) == next_state(s0, es[0]));
    } else {
        lemma_state_at_shift(s0, es, i - 1);
        assert(es.drop_first()[i - 2] == es[i - 1]);
    }
}

/// In a compliant trace, every event answers the action of the state it
/// arrived in, and the state advances by the transition relation.
proof fn lemma_compliant_step(s0: RunState, notify: bool, es: Seq<Event>, i: int)
    requires
        compliant(s0, notify, es),
        0 <= i < es.len(),
    ensures
        responds(action_of_state(state_at(s0, es, i), notify), es[i]),
        state_at(s0, es, i + 1) == next_state(state_at(s0, es, i), es[i]),
    decreases i,
{
    if i > 0 {
        lemma_state_at_shift(s0, es, i);
        lemma_state_at_shift(s0, es, i + 1);
        lemma_compliant_step(next_state(s0, es[0]), notify, es.drop_first(), i - 1);
        assert(es.drop_first()[i - 1] == es[i]);
    }
}

/// Every answered action moves the run strictly forward.
proof fn lemma_rank_advances(s: RunState, notify: bool, e: Event)
    requires
        responds(action_of_state(s, notify), e),
    ensures
        rank(next_state(s, e)) > rank(s),
{
}

/// Along a compliant trace the rank strictly grows: no state is ever
/// revisited, and in particular each step of a run happens at most once.
pub proof fn lemma_rank_monotone(s0: RunState, notify: bool, es: Seq<Event>, i: int, j: int)
    requires
        compliant(s0, notify, es),
        0 <= i < j <= es.len(),
    ensures
        rank(state_at(s0, es, i)) < rank(state_at(s0, es, j)),
    decreases j - i,
{
    lemma_compliant_step(s0, notify, es, j - 1);
    lemma_rank_advances(state_at(s0, es, j - 1), notify, es[j - 1]);
    if i < j - 1 {
        lemma_rank_monotone(s0, notify, es, i, j - 1);
    }
}

/// The artifact's presence does not change over a stretch of events that
/// holds neither a successful dump nor a removal.
proof fn lemma_artifact_const(es: Seq<Event>, m: int, n: int, p0: bool)
    requires
        0 <= m <= n <= es.len(),
        forall|j: int|
            m <= j < n ==> !((#[trigger] es[j]) matches Event::DumpFinished(Ok(_))) && !(es[j]
                matches Event::ArtifactRemoved(_)),
    ensures
        artifact_at(p0, es, n) == artifact_at(p0, es, m),
    decreases n - m,
{
    if n > m {
        lemma_artifact_const(es, m, n - 1, p0);
    }
}

/// A run that has failed answers no further event: in a compliant trace
/// every state with an event still ahead of it is not the absorbing
/// failure state, which can therefore only stand at the very end.
pub proof fn lemma_failed_is_final(s0: RunState, notify: bool, es: Seq<Event>, i: int)
    requires
        compliant(s0, notify, es),
        0 <= i < es.len(),
    ensures
        !(state_at(s0, es, i) is Failed),
{
    lemma_compliant_step(s0, notify, es, i);
}

/// Law: with both endpoints healthy, connecting succeeds — verifying the
/// origin and then the target leaves the run connected — and what the
/// orchestrator orders next is the dump, never the restore.
pub proof fn lemma_healthy_connect(h1: ConnectionHandle, h2: ConnectionHandle, notify: bool)
    ensures
        next_state(
            next_state(RunState::Idle, Event::OriginVerified(Ok(h1))),
            Event::TargetVerified(Ok(h2)),
        ) == RunState::Connected,
        action_of_state(RunState::Connected, notify) == Action::RunDump,
{
}

/// Only a successful dump, arriving in the connected state, enters the
/// dumped state.
proof fn lemma_dumped_entry(notify: bool, es: Seq<Event>, j: int)
    requires
        compliant(RunState::Idle, notify, es),
        0 <= j <= es.len(),
        state_at(RunState::Idle, es, j) == RunState::Dumped,
    ensures
        j >= 1,
        es[j - 1] matches Event::DumpFinished(Ok(_)),
        state_at(RunState::Idle, es, j - 1) == RunState::Connected,
{
    lemma_compliant_step(RunState::Idle, notify, es, j - 1);
}

/// Law: dump precedes restore. In any compliant run from idle, a restore
/// outcome is always immediately preceded by a successful dump outcome;
/// no restore is ever invoked before the dump has succeeded.
pub proof fn lemma_dump_precedes_restore(notify: bool, es: Seq<Event>, j: int)
    requires
        compliant(RunState::Idle, notify, es),
        0 <= j < es.len(),
        es[j] matches Event::RestoreFinished(_),
    ensures
        j >= 1,
        es[j - 1] matches Event::DumpFinished(Ok(_)),
        state_at(RunState::Idle, es, j) == RunState::Dumped,
{
    lemma_compliant_step(RunState::Idle, notify, es, j);
    lemma_dumped_entry(notify, es, j);
}

/// Law: connect precedes dump. A dump outcome only ever arrives after
/// both endpoints were verified successfully, the origin strictly before
/// the target.
pub proof fn lemma_connect_precedes_dump(notify: bool, es: Seq<Event>, j: int)
    requires
        compliant(RunState::Idle, notify, es),
        0 <= j < es.len(),
        es[j] matches Event::DumpFinished(_),
    ensures
        j >= 2,
        es[j - 1] matches Event::TargetVerified(Ok(_)),
        es[j - 2] matches Event::OriginVerified(Ok(_)),
{
    lemma_compliant_step(RunState::Idle, notify, es, j);
    assert(state_at(RunState::Idle, es, j) == RunState::Connected);
    lemma_compliant_step(RunState::Idle, notify, es, j - 1);
    assert(state_at(RunState::Idle, es, j - 1) == RunState::OriginVerified);
    lemma_compliant_step(RunState::Idle, notify, es, j - 2);
}

/// Law: a dump failure ends the run at once. The failing dump is the
/// last event of any compliant run: the run stands failed, no restore is
/// ever invoked, no removal is ever ordered, and the artifact path is
/// left exactly as it was.
pub proof fn lemma_dump_failure_stops_run(notify: bool, es: Seq<Event>, i: int, pe: ProcessError)
    requires
        compliant(RunState::Idle, notify, es),
        0 <= i < es.len(),
        es[i] == Event::DumpFinished(Err::<RunOutput, ProcessError>(pe)),
    ensures
        es.len() == i + 1,
        state_at(RunState::Idle, es, es.len() as int) == RunState::Failed(FailureReason::Dump(pe)),
        forall|j: int| 0 <= j < es.len() ==> !((#[trigger] es[j]) matches Event::RestoreFinished(_)),
        forall|j: int| 0 <= j < es.len() ==> !((#[trigger] es[j]) matches Event::ArtifactRemoved(_)),
        forall|p0: bool| #[trigger] artifact_at(p0, es, es.len() as int) == p0,
{
    lemma_compliant_step(RunState::Idle, notify, es, i);
    assert(state_at(RunState::Idle, es, i) == RunState::Connected);
    if i + 1 < es.len() {
        lemma_failed_is_final(RunState::Idle, notify, es, i + 1);
    }
    assert forall|j: int| 0 <= j < es.len() implies !((#[trigger] es[j])
        matches Event::RestoreFinished(_)) && !(es[j] matches Event::ArtifactRemoved(_)) && !(es[j]
        matches Event::DumpFinished(Ok(_))) by {
        lemma_compliant_step(RunState::Idle, notify, es, j);
        if j < i {
            lemma_rank_monotone(RunState::Idle, notify, es, j, i);
        }
    }
    assert forall|p0: bool| #[trigger] artifact_at(p0, es, es.len() as int) == p0 by {
        lemma_artifact_const(es, 0, es.len() as int, p0);
    }
}

/// Law: if the restore succeeds, cleanup is ordered at once — the very
/// next event is the removal's outcome — and when that removal reports
/// success the artifact is absent for the rest of the run.
pub proof fn lemma_restore_success_cleans_up(notify: bool, es: Seq<Event>, i: int, out: RunOutput)
    requires
        complete(RunState::Idle, notify, es),
        0 <= i < es.len(),
        es[i] == Event::RestoreFinished(Ok::<RunOutput, ProcessError>(out)),
    ensures
        i + 1 < es.len(),
        es[i + 1] matches Event::ArtifactRemoved(_),
        es[i + 1] == Event::ArtifactRemoved(true) ==> forall|p0: bool|
            #[trigger] artifact_at(p0, es, es.len() as int) == false,
{
    lemma_compliant_step(RunState::Idle, notify, es, i);
    assert(state_at(RunState::Idle, es, i) == RunState::Dumped);
    assert(state_at(RunState::Idle, es, i + 1) == RunState::Restored);
    if i + 1 == es.len() {
        assert(action_of_state(RunState::Restored, notify) == Action::RemoveArtifact);
        assert(false);
    }
    lemma_compliant_step(RunState::Idle, notify, es, i + 1);
    if es[i + 1] == Event::ArtifactRemoved(true) {
        assert forall|p0: bool| #[trigger] artifact_at(p0, es, es.len() as int) == false by {
            assert(artifact_at(p0, es, i + 2) == false);
            assert forall|j: int|
                i + 2 <= j < es.len() implies !((#[trigger] es[j])
                matches Event::DumpFinished(Ok(_))) && !(es[j]
                matches Event::ArtifactRemoved(_)) by {
                lemma_compliant_step(RunState::Idle, notify, es, j);
                lemma_rank_monotone(RunState::Idle, notify, es, i + 1, j);
            }
            lemma_artifact_const(es, i + 2, es.len() as int, p0);
        }
    }
}

/// Law: if the restore fails, the run ends at once in the restore
/// failure state and the artifact — written by the dump that necessarily
/// succeeded just before — is still present.
pub proof fn lemma_restore_failure_keeps_artifact(
    notify: bool,
    es: Seq<Event>,
    i: int,
    pe: ProcessError,
)
    requires
        compliant(RunState::Idle, notify, es),
        0 <= i < es.len(),
        es[i] == Event::RestoreFinished(Err::<RunOutput, ProcessError>(pe)),
    ensures
        es.len() == i + 1,
        state_at(RunState::Idle, es, es.len() as int) == RunState::Failed(
            FailureReason::Restore(pe),
        ),
        forall|p0: bool| #[trigger] artifact_at(p0, es, es.len() as int) == true,
{
    lemma_compliant_step(RunState::Idle, notify, es, i);
    assert(state_at(RunState::Idle, es, i) == RunState::Dumped);
    lemma_dumped_entry(notify, es, i);
    if i + 1 < es.len() {
        lemma_failed_is_final(RunState::Idle, notify, es, i + 1);
    }
    assert forall|p0: bool| #[trigger] artifact_at(p0, es, es.len() as int) == true by {
        assert(artifact_at(p0, es, i) == true);
        assert(artifact_at(p0, es, i + 1) == true);
    }
}

/// Law (notification, only if): a report is only ever sent when
/// notification is enabled and the replication has reached its success
/// state — never after a failure, never when disabled.
pub proof fn lemma_report_only_after_success(notify: bool, es: Seq<Event>, i: int)
    requires
        compliant(RunState::Idle, notify, es),
        0 <= i < es.len(),
        es[i] matches Event::ReportSent(_),
    ensures
        notify,
        state_at(RunState::Idle, es, i) == RunState::CleanedUp,
{
    lemma_compliant_step(RunState::Idle, notify, es, i);
}

/// Law (notification, if): in a complete run with notification enabled,
/// reaching the success state means the report is sent at once: the
/// event following cleanup is the delivery's outcome.
pub proof fn lemma_success_sends_report(notify: bool, es: Seq<Event>, i: int)
    requires
        complete(RunState::Idle, notify, es),
        notify,
        0 <= i <= es.len(),
        state_at(RunState::Idle, es, i) == RunState::CleanedUp,
    ensures
        i < es.len(),
        es[i] matches Event::ReportSent(_),
{
    if i == es.len() {
        assert(action_of_state(RunState::CleanedUp, notify) == Action::SendReport);
        assert(false);
    }
    lemma_compliant_step(RunState::Idle, notify, es, i);
}

/// Law: closing is idempotent and a close on a never-opened run changes
/// nothing. Closing only takes the handles out — it cannot fail — so a
/// second close finds none and leaves the run exactly as it stands.
pub proof fn lemma_close_idempotent(db: PostgresDB)
    ensures
        closed_run(closed_run(db)) == closed_run(db),
        (db.origin_client is None && db.target_client is None) ==> closed_run(db) == db,
{
}

} // verus!

