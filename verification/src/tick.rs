//! The per-robot, per-tick reconciliation: stage newly flagged users, then
//! step every existing record through the state machine, always against the
//! roster fetched this tick.
//!
//! Staging is an upsert keyed on the user id: a user already staged only has
//! the newly detected reasons merged in; the snapshot, the scheduled removal
//! time and the warning time stay as first detected. The transition pass
//! turns each record into the store writes, log appends, warning emails and
//! external removal calls the tick owes; the caller performs them.

use vstd::prelude::*;
use crate::{GRACE_PERIOD_DAYS, SECONDS_PER_DAY, WARN_DELAY_DAYS};
use crate::evaluate::{evaluate, spec_evaluation};
use crate::jira::{spec_user_for, spec_user_present, find_user, user_ids_unique, User};
use crate::purge::{spec_new_purge_data, PurgeAction, PurgeData, PurgeLog, PurgeUser};
use crate::reasons::ReasonSet;
use crate::robot::Robot;

verus! {

/// Whether the records hold pairwise distinct user ids: what makes a
/// robot's record set a well-formed map from user id to record.
pub open spec fn record_ids_unique(records: Seq<PurgeData>) -> bool {
    forall|i: int, j: int|
        0 <= i < j < records.len() ==> records[i].user.id@ != records[j].user.id@
}

/// Whether some record holds the given user id.
pub open spec fn spec_has_record(records: Seq<PurgeData>, id: Seq<char>) -> bool {
    exists|i: int| 0 <= i < records.len() && (#[trigger] records[i]).user.id@ == id
}

/// The index of a record holding the given user id; unique when the ids
/// are.
pub open spec fn spec_record_index(records: Seq<PurgeData>, id: Seq<char>) -> int {
    choose|i: int| 0 <= i < records.len() && (#[trigger] records[i]).user.id@ == id
}

/// The record with the newly detected reasons merged in: the union, never a
/// replacement, and nothing else touched.
pub open spec fn spec_merge(record: PurgeData, reasons: ReasonSet) -> PurgeData {
    PurgeData {
        user: record.user,
        robot: record.robot,
        time: record.time,
        alert: record.alert,
        reasons: record.reasons.spec_union(reasons),
    }
}

/// One staging step: a user flagged for no reason changes nothing; a user
/// already staged has the reasons merged in; a newly flagged user gets a
/// fresh record scheduled for removal a grace window after `now`.
pub open spec fn spec_upsert(
    records: Seq<PurgeData>,
    robot: Robot,
    user: User,
    reasons: ReasonSet,
    now: i64,
) -> Seq<PurgeData> {
    if reasons.spec_is_empty() {
        records
    } else if spec_has_record(records, user.id@) {
        let i = spec_record_index(records, user.id@);
        records.update(i, spec_merge(records[i], reasons))
    } else {
        records.push(
            spec_new_purge_data(
                robot,
                user,
                reasons,
                (now + GRACE_PERIOD_DAYS * SECONDS_PER_DAY) as i64,
            ),
        )
    }
}

/// The record set after staging the first `k` roster users.
pub open spec fn spec_insert_upto(
    records: Seq<PurgeData>,
    robot: Robot,
    roster: Seq<User>,
    sets: Seq<ReasonSet>,
    now: i64,
    k: int,
) -> Seq<PurgeData>
    decreases k,
{
    if k <= 0 {
        records
    } else {
        spec_upsert(
            spec_insert_upto(records, robot, roster, sets, now, k - 1),
            robot,
            roster[k - 1],
            sets[k - 1],
            now,
        )
    }
}

/// The record set after staging every roster user with its detected
/// reasons.
pub open spec fn spec_insert_all(
    records: Seq<PurgeData>,
    robot: Robot,
    roster: Seq<User>,
    sets: Seq<ReasonSet>,
    now: i64,
) -> Seq<PurgeData> {
    spec_insert_upto(records, robot, roster, sets, now, roster.len() as int)
}

/// The index of the first record with the given user id, if any.
fn find_record(records: &Vec<PurgeData>, id: &String) -> (r: Option<usize>)
    ensures
        match r {
            Some(i) => 0 <= i < records@.len() && records@[i as int].user.id@ == id@,
            None => forall|i: int| 0 <= i < records@.len() ==> records@[i].user.id@ != id@,
        },
{
    let mut i: usize = 0;
    while i < records.len()
        invariant
            0 <= i <= records@.len(),
            forall|j: int| 0 <= j < i ==> records@[j].user.id@ != id@,
        decreases records@.len() - i,
    {
        if records[i].user.id == *id {
            return Some(i);
        }
        i = i + 1;
    }
    None
}

/// Stages the evaluator's findings against the robot's records: for each
/// roster user, in roster order, merges the detected reasons into the user's
/// existing record or creates a fresh one, per `spec_insert_all`. Existing
/// records keep their snapshot, scheduled removal time and warning time;
/// only their reason sets can grow.
pub fn insert_candidates(
    records: Vec<PurgeData>,
    robot: &Robot,
    roster: &Vec<User>,
    sets: &Vec<ReasonSet>,
    now: i64,
) -> (r: Vec<PurgeData>)
    requires
        robot.data.id.unique.is_some(),
        sets@.len() == roster@.len(),
        record_ids_unique(records@),
        now + GRACE_PERIOD_DAYS * SECONDS_PER_DAY <= i64::MAX,
    ensures
        r@ == spec_insert_all(records@, *robot, roster@, sets@, now),
        record_ids_unique(r@),
{
    let ghost records0 = records@;
    let mut current = records;
    let mut k: usize = 0;
    while k < roster.len()
        invariant
            k <= roster@.len(),
            sets@.len() == roster@.len(),
            robot.data.id.unique.is_some(),
            now + GRACE_PERIOD_DAYS * SECONDS_PER_DAY <= i64::MAX,
            current@ == spec_insert_upto(records0, *robot, roster@, sets@, now, k as int),
            record_ids_unique(current@),
        decreases roster@.len() - k,
    {
        let ghost prev = current@;
        let reasons = sets[k];
        if !reasons.is_empty() {
            match find_record(&current, &roster[k].id) {
                Some(i) => {
                    let merged = PurgeData {
                        user: current[i].user.duplicate(),
                        robot: current[i].robot,
                        time: current[i].time,
                        alert: current[i].alert,
                        reasons: current[i].reasons.union(&reasons),
                    };
                    current.set(i, merged);
                    proof {
                        let id = roster@[k as int].id@;
                        assert(spec_has_record(prev, id));
                        let j = spec_record_index(prev, id);
                        assert(0 <= j < prev.len() && prev[j].user.id@ == id);
                        if j < i {
                            assert(prev[j].user.id@ != prev[i as int].user.id@);
                        }
                        if i < j {
                            assert(prev[i as int].user.id@ != prev[j].user.id@);
                        }
                        assert(j == i as int);
                        assert(current@ =~= spec_upsert(prev, *robot, roster@[k as int], sets@[k as int], now));
                    }
                },
                None => {
                    let staged = PurgeData::new(
                        robot,
                        &roster[k],
                        reasons,
                        now + GRACE_PERIOD_DAYS * SECONDS_PER_DAY,
                    );
                    current.push(staged);
                    proof {
                        assert(!spec_has_record(prev, roster@[k as int].id@));
                        assert(current@ =~= spec_upsert(prev, *robot, roster@[k as int], sets@[k as int], now));
                    }
                },
            }
        }
        k = k + 1;
    }
    current
}

/// The action the state machine takes for one record this tick, against the
/// roster fetched this tick.
pub open spec fn spec_record_action(record: PurgeData, roster: Seq<User>, now: i64) -> PurgeAction {
    if spec_user_present(roster, record.user.id@) {
        record.spec_decide(Some(spec_user_for(roster, record.user.id@)), now)
    } else {
        record.spec_decide(None, now)
    }
}

/// The log entry a removal appends: the robot, the user's current roster
/// entry, the record's reasons, and the removal instant.
pub open spec fn spec_log_entry(robot: Robot, record: PurgeData, roster: Seq<User>, now: i64) -> PurgeLog {
    PurgeLog {
        user: spec_user_for(roster, record.user.id@),
        robot,
        reasons: record.reasons,
        time: now,
    }
}

/// A record after its warning is stamped: only the warning time changes.
pub open spec fn spec_warned_record(record: PurgeData, now: i64) -> PurgeData {
    PurgeData {
        user: record.user,
        robot: record.robot,
        time: record.time,
        alert: Some(now),
        reasons: record.reasons,
    }
}

/// The transition pass over the first `k` records: the records still in the
/// store, the log entries appended, the user snapshots to warn, and the
/// user ids to remove externally, each in record order.
pub open spec fn spec_transition_upto(
    robot: Robot,
    records: Seq<PurgeData>,
    roster: Seq<User>,
    now: i64,
    k: int,
) -> (Seq<PurgeData>, Seq<PurgeLog>, Seq<PurgeUser>, Seq<String>)
    decreases k,
{
    if k <= 0 {
        (Seq::empty(), Seq::empty(), Seq::empty(), Seq::empty())
    } else {
        let prev = spec_transition_upto(robot, records, roster, now, k - 1);
        let record = records[k - 1];
        match spec_record_action(record, roster, now) {
            PurgeAction::Remove => (
                prev.0,
                prev.1.push(spec_log_entry(robot, record, roster, now)),
                prev.2,
                prev.3.push(record.user.id),
            ),
            PurgeAction::Warn => (
                prev.0.push(spec_warned_record(record, now)),
                prev.1,
                prev.2.push(record.user),
                prev.3,
            ),
            PurgeAction::Clear => prev,
            PurgeAction::Keep => (prev.0.push(record), prev.1, prev.2, prev.3),
        }
    }
}

/// The transition pass over all records.
pub open spec fn spec_transition(
    robot: Robot,
    records: Seq<PurgeData>,
    roster: Seq<User>,
    now: i64,
) -> (Seq<PurgeData>, Seq<PurgeLog>, Seq<PurgeUser>, Seq<String>) {
    spec_transition_upto(robot, records, roster, now, records.len() as int)
}

/// What one tick owes its collaborators: the records still staged, the log
/// entries to append, the warnings to email, and the external removals to
/// request.
pub struct TickEffects {
    pub kept: Vec<PurgeData>,
    pub logs: Vec<PurgeLog>,
    pub warned: Vec<PurgeUser>,
    pub removals: Vec<String>,
}

/// Steps every record through the state machine against the roster fetched
/// this tick, per `spec_transition`: expired records with a reason still
/// holding are logged and removed; records within the grace window are
/// warned at most once per warning window; records whose reasons all lapsed
/// or whose user left are cleared once expired, never earlier.
pub fn transition_pass(robot: &Robot, records: &Vec<PurgeData>, roster: &Vec<User>, now: i64) -> (e:
    TickEffects)
    requires
        user_ids_unique(roster@),
    ensures
        (e.kept@, e.logs@, e.warned@, e.removals@) == spec_transition(
            *robot,
            records@,
            roster@,
            now,
        ),
{
    let mut kept: Vec<PurgeData> = Vec::new();
    let mut logs: Vec<PurgeLog> = Vec::new();
    let mut warned: Vec<PurgeUser> = Vec::new();
    let mut removals: Vec<String> = Vec::new();
    let mut k: usize = 0;
    while k < records.len()
        invariant
            k <= records@.len(),
            user_ids_unique(roster@),
            (kept@, logs@, warned@, removals@) == spec_transition_upto(
                *robot,
                records@,
                roster@,
                now,
                k as int,
            ),
        decreases records@.len() - k,
    {
        let record = &records[k];
        let found = find_user(roster, &record.user.id);
        let ghost action = spec_record_action(records@[k as int], roster@, now);
        proof {
            let id = records@[k as int].user.id@;
            match found {
                Some(i) => {
                    assert(spec_user_present(roster@, id));
                    let j = choose|m: int| 0 <= m < roster@.len() && (#[trigger] roster@[m]).id@ == id;
                    if j < i as int {
                        assert(roster@[j].id@ != roster@[i as int].id@);
                    }
                    if (i as int) < j {
                        assert(roster@[i as int].id@ != roster@[j].id@);
                    }
                    assert(spec_user_for(roster@, id) == roster@[i as int]);
                },
                None => {
                    assert(!spec_user_present(roster@, id));
                },
            }
        }
        let decision = match found {
            Some(i) => record.decide(Some(&roster[i]), now),
            None => record.decide(None, now),
        };
        match decision {
            PurgeAction::Remove => {
                match found {
                    Some(i) => {
                        logs.push(PurgeLog::new(robot, &roster[i], record.reasons, now));
                        removals.push(record.user.id.clone());
                    },
                    None => {
                        // An absent user never yields a removal: the state
                        // machine clears such a record instead.
                        proof {
                            assert(false);
                        }
                    },
                }
            },
            PurgeAction::Warn => {
                kept.push(
                    PurgeData {
                        user: record.user.duplicate(),
                        robot: record.robot,
                        time: record.time,
                        alert: Some(now),
                        reasons: record.reasons,
                    },
                );
                warned.push(record.user.duplicate());
            },
            PurgeAction::Clear => {},
            PurgeAction::Keep => {
                kept.push(record.duplicate());
            },
        }
        k = k + 1;
    }
    TickEffects { kept, logs, warned, removals }
}

/// The record set a tick stages before the transition pass: the staging
/// pass runs only when the robot is due for a fresh policy evaluation.
pub open spec fn spec_tick_records(
    robot: Robot,
    records: Seq<PurgeData>,
    roster: Seq<User>,
    now: i64,
) -> Seq<PurgeData> {
    if !robot.spec_is_updated(now) {
        spec_insert_all(
            records,
            robot,
            roster,
            spec_evaluation(robot.config.scheduler, roster, now),
            now,
        )
    } else {
        records
    }
}

/// Everything one tick decides for one robot.
pub struct TickOutcome {
    /// The robot's records after the tick; the store is brought to exactly
    /// these.
    pub records: Vec<PurgeData>,
    /// The log entries to append, one per removal, before the records are
    /// deleted.
    pub logs: Vec<PurgeLog>,
    /// The user snapshots to send a warning email to.
    pub warned: Vec<PurgeUser>,
    /// The user ids whose external removal to request, best-effort.
    pub removals: Vec<String>,
    /// Whether the robot's last-evaluated stamp must be set to `now`: true
    /// exactly when this tick ran a fresh policy evaluation.
    pub stamp_modified: bool,
}

/// Whether the scheduler is due to run a tick at `now`: on the very first
/// pass, and then whenever the next scheduled instant after the last run has
/// arrived. `next_after_last` is that instant, as the schedule gives it; a
/// schedule with no next instant is never due again.
pub open spec fn spec_should_run(last_run: Option<i64>, next_after_last: Option<i64>, now: i64) -> bool {
    match last_run {
        None => true,
        Some(_) => match next_after_last {
            Some(next) => next <= now,
            None => false,
        },
    }
}

/// Whether the scheduler is due to run a tick at `now`, per
/// `spec_should_run`. The schedule arithmetic itself stays with the caller;
/// this is the decision.
pub fn should_run(last_run: Option<i64>, next_after_last: Option<i64>, now: i64) -> (r: bool)
    ensures
        r == spec_should_run(last_run, next_after_last, now),
{
    match last_run {
        None => true,
        Some(_) => match next_after_last {
            Some(next) => next <= now,
            None => false,
        },
    }
}

/// One full tick for one active robot: evaluate the policy and stage the
/// findings if the robot is due, then step every record through the state
/// machine — both against the roster fetched this tick.
pub fn run_tick(robot: &Robot, records: Vec<PurgeData>, roster: &Vec<User>, now: i64) -> (o:
    TickOutcome)
    requires
        robot.data.active,
        robot.config.scheduler.schedule > 0,
        robot.data.id.unique.is_some(),
        user_ids_unique(roster@),
        record_ids_unique(records@),
        forall|i: int|
            0 <= i < records@.len() ==> (#[trigger] records@[i]).robot.id
                == robot.data.id.unique.unwrap(),
        now + GRACE_PERIOD_DAYS * SECONDS_PER_DAY <= i64::MAX,
    ensures
        o.stamp_modified == !robot.spec_is_updated(now),
        (o.records@, o.logs@, o.warned@, o.removals@) == spec_transition(
            *robot,
            spec_tick_records(*robot, records@, roster@, now),
            roster@,
            now,
        ),
        record_ids_unique(o.records@),
{
    let due = !robot.is_updated(now);
    let staged = if due {
        let sets = evaluate(&robot.config.scheduler, roster, now);
        insert_candidates(records, robot, roster, &sets, now)
    } else {
        records
    };
    let effects = transition_pass(robot, &staged, roster, now);
    proof {
        crate::laws::lemma_transition_preserves_unique(
            *robot,
            staged@,
            roster@,
            now,
            staged@.len() as int,
        );
    }
    TickOutcome {
        records: effects.kept,
        logs: effects.logs,
        warned: effects.warned,
        removals: effects.removals,
        stamp_modified: due,
    }
}

} // verus!
