//! The run report: the subject line and the body flushed to the
//! notifier after a successful replication.

use vstd::prelude::*;
use vstd::string::StringExecFns;
use crate::model::log_views;
use crate::postgresdb::PostgresDB;

verus! {

/// The fixed beginning of every report subject.
pub open spec fn subject_prefix() -> Seq<char> {
    "POSTGRES Replication "@
}

/// The body of a report: the run log's records joined with single line
/// breaks, in the order they were appended.
pub open spec fn joined_records(logs: Seq<Seq<char>>) -> Seq<char>
    decreases logs.len(),
{
    if logs.len() == 0 {
        Seq::<char>::empty()
    } else if logs.len() == 1 {
        logs[0]
    } else {
        joined_records(logs.drop_last()) + "\n"@ + logs.last()
    }
}

/// A record occurs verbatim somewhere inside a body.
pub open spec fn contains_record(body: Seq<char>, rec: Seq<char>) -> bool {
    exists|k: int|
        0 <= k && k + rec.len() <= body.len() && #[trigger] body.subrange(k, k + rec.len() as int)
            == rec
}

/// Relies on chrono's local date-time for the current wall-clock time,
/// read from the system clock and rendered in its display form. The
/// result depends on the clock, so nothing is claimed of it. Reading
/// through the conversion from the system time keeps a clock that stands
/// before the Unix epoch from panicking, which chrono's direct clock
/// read would.
#[verifier::external_body]
fn local_timestamp() -> String {
    format!("{}", chrono::DateTime::<chrono::Local>::from(std::time::SystemTime::now()))
}

/// The subject a report carries for a given completion timestamp: the
/// backend kind, the word Replication, and the timestamp, exactly.
pub fn subject_for(ts: &str) -> (s: String)
    ensures
        s@ == subject_prefix() + ts@,
{
    String::from_str("POSTGRES Replication ").concat(ts)
}

/// The subject of a run report: [`subject_for`] applied to the wall
/// clock's timestamp. Only the fixed beginning is determined here; the
/// rest is whatever the clock returned.
pub fn report_subject() -> (s: String)
    ensures
        s@.len() >= subject_prefix().len(),
        s@.subrange(0, subject_prefix().len() as int) == subject_prefix(),
{
    let ts = local_timestamp();
    let s = subject_for(ts.as_str());
    proof {
        assert(s@.subrange(0, subject_prefix().len() as int) =~= subject_prefix());
    }
    s
}

impl PostgresDB {
    /// The body of this run's report: every record of the run log, in
    /// order, joined with line breaks.
    pub fn report_body(&self) -> (body: String)
        ensures
            body@ == joined_records(log_views(self.run_log@)),
    {
        let ghost lv = log_views(self.run_log@);
        let mut body = String::new();
        let mut i: usize = 0;
        while i < self.run_log.len()
            invariant
                i <= self.run_log@.len(),
                lv == log_views(self.run_log@),
                body@ == joined_records(lv.take(i as int)),
            decreases self.run_log@.len() - i,
        {
            if i > 0 {
                body.append("\n");
            }
            body.append(self.run_log[i].as_str());
            proof {
                assert(lv.take(i + 1 as int).drop_last() =~= lv.take(i as int));
                assert(lv.take(i + 1 as int).last() == lv[i as int]);
                if i == 0 {
                    assert(body@ =~= joined_records(lv.take(i + 1 as int)));
                }
            }
            i = i + 1;
        }
        proof {
            assert(lv.take(self.run_log@.len() as int) =~= lv);
        }
        body
    }
}

/// A record found at offset `k` is contained in the body.
proof fn lemma_contains_at(body: Seq<char>, rec: Seq<char>, k: int)
    requires
        0 <= k,
        k + rec.len() <= body.len(),
        body.subrange(k, k + rec.len() as int) == rec,
    ensures
        contains_record(body, rec),
{
}

/// Every record of a run log occurs verbatim in the joined body; the
/// joining only ever puts line breaks between records.
pub proof fn lemma_joined_contains_each_record(logs: Seq<Seq<char>>, i: int)
    requires
        0 <= i < logs.len(),
    ensures
        contains_record(joined_records(logs), logs[i]),
    decreases logs.len(),
{
    reveal_strlit("\n");
    let body = joined_records(logs);
    if logs.len() == 1 {
        assert(body.subrange(0, logs[0].len() as int) =~= logs[0]);
        lemma_contains_at(body, logs[0], 0);
    } else if i < logs.len() - 1 {
        lemma_joined_contains_each_record(logs.drop_last(), i);
        let a = joined_records(logs.drop_last());
        let rec = logs.drop_last()[i];
        let k = choose|k: int|
            0 <= k && k + rec.len() <= a.len() && #[trigger] a.subrange(k, k + rec.len() as int)
                == rec;
        assert(body.subrange(k, k + rec.len() as int) =~= a.subrange(k, k + rec.len() as int));
        assert(logs[i] == rec);
        lemma_contains_at(body, logs[i], k);
    } else {
        let a = joined_records(logs.drop_last());
        let rec = logs.last();
        let k = a.len() as int + 1;
        assert(body.subrange(k, k + rec.len() as int) =~= rec);
        assert(logs[i] == rec);
        lemma_contains_at(body, logs[i], k);
    }
}

} // verus!
