//! The engine's cross-function guarantees, stated and proved over the same
//! spec models the executable functions are verified against.

use vstd::prelude::*;
use crate::jira::User;
use crate::purge::{PurgeAction, PurgeData};
use crate::reasons::ReasonSet;
use crate::robot::Robot;
use crate::tick::{
    record_ids_unique, spec_has_record, spec_insert_all, spec_insert_upto, spec_log_entry,
    spec_merge, spec_record_action, spec_record_index, spec_transition_upto, spec_upsert,
};

verus! {

/// Whether every reason of `a` is also in `b`.
pub open spec fn reason_subset(a: ReasonSet, b: ReasonSet) -> bool {
    &&& (a.active_status ==> b.active_status)
    &&& (a.last_active ==> b.last_active)
    &&& (a.duplicate_email ==> b.duplicate_email)
    &&& (a.duplicate_name ==> b.duplicate_name)
}

/// Whether some record holds the user id with at least the given reasons.
pub open spec fn spec_staged_with(records: Seq<PurgeData>, id: Seq<char>, reasons: ReasonSet) -> bool {
    exists|i: int|
        0 <= i < records.len() && (#[trigger] records[i]).user.id@ == id && reason_subset(
            reasons,
            records[i].reasons,
        )
}

/// Staging keeps record ids pairwise distinct.
pub proof fn lemma_upsert_preserves_unique(
    records: Seq<PurgeData>,
    robot: Robot,
    user: User,
    rs: ReasonSet,
    now: i64,
)
    requires
        record_ids_unique(records),
    ensures
        record_ids_unique(spec_upsert(records, robot, user, rs, now)),
{
    let r = spec_upsert(records, robot, user, rs, now);
    if rs.spec_is_empty() {
    } else if spec_has_record(records, user.id@) {
        assert forall|a: int, b: int| 0 <= a < b < r.len() implies r[a].user.id@ != r[b].user.id@ by {
            assert(r[a].user == records[a].user);
            assert(r[b].user == records[b].user);
        }
    } else {
        assert forall|a: int, b: int| 0 <= a < b < r.len() implies r[a].user.id@ != r[b].user.id@ by {
            if b == records.len() {
                assert(r[b].user.id == user.id);
                assert(records[a].user.id@ != user.id@);
            }
        }
    }
}

/// Staging keeps record ids pairwise distinct, over a whole pass.
pub proof fn lemma_insert_upto_preserves_unique(
    records: Seq<PurgeData>,
    robot: Robot,
    roster: Seq<User>,
    sets: Seq<ReasonSet>,
    now: i64,
    k: int,
)
    requires
        record_ids_unique(records),
    ensures
        record_ids_unique(spec_insert_upto(records, robot, roster, sets, now, k)),
    decreases k,
{
    if k > 0 {
        lemma_insert_upto_preserves_unique(records, robot, roster, sets, now, k - 1);
        lemma_upsert_preserves_unique(
            spec_insert_upto(records, robot, roster, sets, now, k - 1),
            robot,
            roster[k - 1],
            sets[k - 1],
            now,
        );
    }
}

/// One staging step never touches an existing record's snapshot, owner,
/// scheduled removal time or warning time, and never shrinks its reasons.
pub proof fn lemma_upsert_preserves_fields(
    records: Seq<PurgeData>,
    robot: Robot,
    user: User,
    rs: ReasonSet,
    now: i64,
    i: int,
)
    requires
        0 <= i < records.len(),
    ensures
        ({
            let r = spec_upsert(records, robot, user, rs, now);
            &&& r.len() >= records.len()
            &&& r[i].user == records[i].user
            &&& r[i].robot == records[i].robot
            &&& r[i].time == records[i].time
            &&& r[i].alert == records[i].alert
            &&& reason_subset(records[i].reasons, r[i].reasons)
        }),
{
}

/// Grace-window monotonicity (staging half): a whole staging pass never
/// touches an existing record's snapshot, owner, scheduled removal time or
/// warning time, and never shrinks its reasons.
pub proof fn lemma_insert_preserves_schedule(
    records: Seq<PurgeData>,
    robot: Robot,
    roster: Seq<User>,
    sets: Seq<ReasonSet>,
    now: i64,
    k: int,
    i: int,
)
    requires
        0 <= i < records.len(),
    ensures
        ({
            let r = spec_insert_upto(records, robot, roster, sets, now, k);
            &&& r.len() >= records.len()
            &&& r[i].user == records[i].user
            &&& r[i].robot == records[i].robot
            &&& r[i].time == records[i].time
            &&& r[i].alert == records[i].alert
            &&& reason_subset(records[i].reasons, r[i].reasons)
        }),
    decreases k,
{
    if k > 0 {
        lemma_insert_preserves_schedule(records, robot, roster, sets, now, k - 1, i);
        lemma_upsert_preserves_fields(
            spec_insert_upto(records, robot, roster, sets, now, k - 1),
            robot,
            roster[k - 1],
            sets[k - 1],
            now,
            i,
        );
    }
}

/// A staging step keeps every already-staged user staged, with at least the
/// reasons it had.
pub proof fn lemma_upsert_preserves_staged(
    records: Seq<PurgeData>,
    robot: Robot,
    user: User,
    rs: ReasonSet,
    now: i64,
    id: Seq<char>,
    had: ReasonSet,
)
    requires
        spec_staged_with(records, id, had),
    ensures
        spec_staged_with(spec_upsert(records, robot, user, rs, now), id, had),
{
    let i = choose|i: int|
        0 <= i < records.len() && (#[trigger] records[i]).user.id@ == id && reason_subset(
            had,
            records[i].reasons,
        );
    lemma_upsert_preserves_fields(records, robot, user, rs, now, i);
    let r = spec_upsert(records, robot, user, rs, now);
    assert(r[i].user.id@ == id && reason_subset(had, r[i].reasons));
}

/// After one staging step, a user flagged for some reasons is staged with
/// at least those reasons.
pub proof fn lemma_upsert_stages(
    records: Seq<PurgeData>,
    robot: Robot,
    user: User,
    rs: ReasonSet,
    now: i64,
)
    requires
        !rs.spec_is_empty(),
    ensures
        spec_staged_with(spec_upsert(records, robot, user, rs, now), user.id@, rs),
{
    let r = spec_upsert(records, robot, user, rs, now);
    if spec_has_record(records, user.id@) {
        let i = spec_record_index(records, user.id@);
        assert(r[i] == spec_merge(records[i], rs));
        assert(r[i].user.id@ == user.id@ && reason_subset(rs, r[i].reasons));
    } else {
        let i = records.len() as int;
        assert(r[i].user.id == user.id);
        assert(r[i].user.id@ == user.id@ && reason_subset(rs, r[i].reasons));
    }
}

/// After a staging pass, every user the evaluator flagged is staged with at
/// least the flagged reasons.
pub proof fn lemma_insert_upto_stages(
    records: Seq<PurgeData>,
    robot: Robot,
    roster: Seq<User>,
    sets: Seq<ReasonSet>,
    now: i64,
    k: int,
    m: int,
)
    requires
        sets.len() == roster.len(),
        0 <= m < k <= roster.len(),
        !sets[m].spec_is_empty(),
    ensures
        spec_staged_with(
            spec_insert_upto(records, robot, roster, sets, now, k),
            roster[m].id@,
            sets[m],
        ),
    decreases k,
{
    let prev = spec_insert_upto(records, robot, roster, sets, now, k - 1);
    if m == k - 1 {
        lemma_upsert_stages(prev, robot, roster[m], sets[m], now);
    } else {
        lemma_insert_upto_stages(records, robot, roster, sets, now, k - 1, m);
        lemma_upsert_preserves_staged(
            prev,
            robot,
            roster[k - 1],
            sets[k - 1],
            now,
            roster[m].id@,
            sets[m],
        );
    }
}

/// A staging step whose findings are already on the user's record changes
/// nothing: upsert with reason union is idempotent.
pub proof fn lemma_upsert_noop(
    records: Seq<PurgeData>,
    robot: Robot,
    user: User,
    rs: ReasonSet,
    now: i64,
)
    requires
        record_ids_unique(records),
        rs.spec_is_empty() || spec_staged_with(records, user.id@, rs),
    ensures
        spec_upsert(records, robot, user, rs, now) == records,
{
    if !rs.spec_is_empty() {
        let w = choose|i: int|
            0 <= i < records.len() && (#[trigger] records[i]).user.id@ == user.id@
                && reason_subset(rs, records[i].reasons);
        assert(spec_has_record(records, user.id@));
        let i = spec_record_index(records, user.id@);
        assert(0 <= i < records.len() && records[i].user.id@ == user.id@);
        if i < w {
            assert(records[i].user.id@ != records[w].user.id@);
        }
        if w < i {
            assert(records[w].user.id@ != records[i].user.id@);
        }
        assert(i == w);
        assert(records[i].reasons.spec_union(rs) == records[i].reasons);
        assert(spec_merge(records[i], rs) == records[i]);
        assert(records.update(i, records[i]) =~= records);
    }
}

/// A staging pass whose findings are all already on the records changes
/// nothing.
pub proof fn lemma_insert_upto_noop(
    records: Seq<PurgeData>,
    robot: Robot,
    roster: Seq<User>,
    sets: Seq<ReasonSet>,
    now: i64,
    k: int,
)
    requires
        record_ids_unique(records),
        sets.len() == roster.len(),
        0 <= k <= roster.len(),
        forall|m: int|
            0 <= m < k ==> ((#[trigger] sets[m]).spec_is_empty() || spec_staged_with(
                records,
                roster[m].id@,
                sets[m],
            )),
    ensures
        spec_insert_upto(records, robot, roster, sets, now, k) == records,
    decreases k,
{
    if k > 0 {
        lemma_insert_upto_noop(records, robot, roster, sets, now, k - 1);
        lemma_upsert_noop(records, robot, roster[k - 1], sets[k - 1], now);
    }
}

/// Idempotent insertion: staging the same findings twice, starting from an
/// empty record set, leaves exactly what staging them once leaves. Upsert
/// with reason union is idempotent.
pub proof fn lemma_insertion_idempotent(
    robot: Robot,
    roster: Seq<User>,
    sets: Seq<ReasonSet>,
    now: i64,
)
    requires
        sets.len() == roster.len(),
    ensures
        ({
            let once = spec_insert_all(Seq::empty(), robot, roster, sets, now);
            spec_insert_all(once, robot, roster, sets, now) == once
        }),
{
    let n = roster.len() as int;
    let once = spec_insert_all(Seq::empty(), robot, roster, sets, now);
    lemma_insert_upto_preserves_unique(Seq::empty(), robot, roster, sets, now, n);
    assert forall|m: int| 0 <= m < n implies ((#[trigger] sets[m]).spec_is_empty()
        || spec_staged_with(once, roster[m].id@, sets[m])) by {
        if !sets[m].spec_is_empty() {
            lemma_insert_upto_stages(Seq::empty(), robot, roster, sets, now, n, m);
        }
    }
    lemma_insert_upto_noop(once, robot, roster, sets, now, n);
}

/// A staging step that finds the user already staged merges exactly: the
/// result at that record is the union of the old reasons with the new ones,
/// everything else unchanged.
pub proof fn lemma_upsert_merges(
    records: Seq<PurgeData>,
    robot: Robot,
    user: User,
    rs: ReasonSet,
    now: i64,
    i: int,
)
    requires
        record_ids_unique(records),
        0 <= i < records.len(),
        records[i].user.id@ == user.id@,
        !rs.spec_is_empty(),
    ensures
        spec_upsert(records, robot, user, rs, now) == records.update(
            i,
            spec_merge(records[i], rs),
        ),
{
    assert(spec_has_record(records, user.id@));
    let j = spec_record_index(records, user.id@);
    assert(0 <= j < records.len() && records[j].user.id@ == user.id@);
    if i < j {
        assert(records[i].user.id@ != records[j].user.id@);
    }
    if j < i {
        assert(records[j].user.id@ != records[i].user.id@);
    }
}

/// Reason union, never loss: a user flagged by one check on one tick and by
/// another check on a later tick ends with exactly the union of the old
/// reasons and both findings, on the same record, with the snapshot and the
/// scheduled removal time untouched.
pub proof fn lemma_reason_union_never_lost(
    records: Seq<PurgeData>,
    robot: Robot,
    user: User,
    rs1: ReasonSet,
    rs2: ReasonSet,
    now1: i64,
    now2: i64,
    i: int,
)
    requires
        record_ids_unique(records),
        0 <= i < records.len(),
        records[i].user.id@ == user.id@,
        !rs1.spec_is_empty(),
        !rs2.spec_is_empty(),
    ensures
        ({
            let twice = spec_upsert(spec_upsert(records, robot, user, rs1, now1), robot, user, rs2, now2);
            &&& twice.len() == records.len()
            &&& twice[i].reasons == records[i].reasons.spec_union(rs1).spec_union(rs2)
            &&& twice[i].user == records[i].user
            &&& twice[i].time == records[i].time
            &&& twice[i].alert == records[i].alert
        }),
{
    lemma_upsert_merges(records, robot, user, rs1, now1, i);
    let after1 = spec_upsert(records, robot, user, rs1, now1);
    lemma_upsert_preserves_unique(records, robot, user, rs1, now1);
    lemma_upsert_merges(after1, robot, user, rs2, now2, i);
}

/// Whether a kept record is one of the first `k` input records, with the
/// same snapshot, owner, scheduled removal time and reasons.
pub open spec fn spec_derived_from(kept: PurgeData, records: Seq<PurgeData>, k: int) -> bool {
    exists|i: int|
        0 <= i < k && {
            let source = #[trigger] records[i];
            &&& kept.user == source.user
            &&& kept.robot == source.robot
            &&& kept.time == source.time
            &&& kept.reasons == source.reasons
        }
}

/// Grace-window monotonicity (transition half): every record the transition
/// pass keeps comes from an input record, with the snapshot, owner,
/// scheduled removal time and reasons untouched; only the warning time can
/// change.
pub proof fn lemma_transition_keeps_schedule(
    robot: Robot,
    records: Seq<PurgeData>,
    roster: Seq<User>,
    now: i64,
    k: int,
)
    requires
        0 <= k <= records.len(),
    ensures
        ({
            let kept = spec_transition_upto(robot, records, roster, now, k).0;
            forall|j: int| 0 <= j < kept.len() ==> spec_derived_from(#[trigger] kept[j], records, k)
        }),
    decreases k,
{
    if k > 0 {
        lemma_transition_keeps_schedule(robot, records, roster, now, k - 1);
        let prev = spec_transition_upto(robot, records, roster, now, k - 1).0;
        let kept = spec_transition_upto(robot, records, roster, now, k).0;
        assert forall|j: int| 0 <= j < kept.len() implies spec_derived_from(
            #[trigger] kept[j],
            records,
            k,
        ) by {
            if j < prev.len() {
                assert(kept[j] == prev[j]);
                assert(spec_derived_from(prev[j], records, k - 1));
                let i = choose|i: int|
                    0 <= i < k - 1 && {
                        let source = #[trigger] records[i];
                        &&& prev[j].user == source.user
                        &&& prev[j].robot == source.robot
                        &&& prev[j].time == source.time
                        &&& prev[j].reasons == source.reasons
                    };
                assert(0 <= i < k && kept[j].user == records[i].user && kept[j].robot
                    == records[i].robot && kept[j].time == records[i].time && kept[j].reasons
                    == records[i].reasons);
            } else {
                assert(kept[j].user == records[k - 1].user && kept[j].robot == records[k - 1].robot
                    && kept[j].time == records[k - 1].time && kept[j].reasons == records[k
                    - 1].reasons);
            }
        }
    }
}

/// Removal atomicity: whenever the transition pass removes a record for
/// expiry, the pass also yields its log entry and its external-removal
/// request; deletion-for-removal is never silent.
pub proof fn lemma_removal_never_silent(
    robot: Robot,
    records: Seq<PurgeData>,
    roster: Seq<User>,
    now: i64,
    k: int,
    i: int,
)
    requires
        0 <= i < k <= records.len(),
        spec_record_action(records[i], roster, now) == PurgeAction::Remove,
    ensures
        ({
            let t = spec_transition_upto(robot, records, roster, now, k);
            &&& t.1.contains(spec_log_entry(robot, records[i], roster, now))
            &&& t.3.contains(records[i].user.id)
        }),
    decreases k,
{
    let t = spec_transition_upto(robot, records, roster, now, k);
    let prev = spec_transition_upto(robot, records, roster, now, k - 1);
    if i == k - 1 {
        assert(t.1[prev.1.len() as int] == spec_log_entry(robot, records[i], roster, now));
        assert(t.3[prev.3.len() as int] == records[i].user.id);
    } else {
        lemma_removal_never_silent(robot, records, roster, now, k - 1, i);
        let entry = spec_log_entry(robot, records[i], roster, now);
        let a = choose|a: int| 0 <= a < prev.1.len() && prev.1[a] == entry;
        let b = choose|b: int| 0 <= b < prev.3.len() && prev.3[b] == records[i].user.id;
        assert(t.1[a] == entry);
        assert(t.3[b] == records[i].user.id);
    }
}

/// Every log entry the transition pass yields comes from a record the state
/// machine removed: with the previous law, a log entry exists exactly when a
/// record was deleted for expiry.
pub proof fn lemma_log_entries_come_from_removals(
    robot: Robot,
    records: Seq<PurgeData>,
    roster: Seq<User>,
    now: i64,
    k: int,
    j: int,
)
    requires
        0 <= k <= records.len(),
        0 <= j < spec_transition_upto(robot, records, roster, now, k).1.len(),
    ensures
        exists|i: int|
            0 <= i < k && spec_record_action(#[trigger] records[i], roster, now)
                == PurgeAction::Remove && spec_transition_upto(robot, records, roster, now, k).1[j]
                == spec_log_entry(robot, records[i], roster, now),
    decreases k,
{
    let t = spec_transition_upto(robot, records, roster, now, k);
    let prev = spec_transition_upto(robot, records, roster, now, k - 1);
    if j < prev.1.len() {
        lemma_log_entries_come_from_removals(robot, records, roster, now, k - 1, j);
        let i = choose|i: int|
            0 <= i < k - 1 && spec_record_action(#[trigger] records[i], roster, now)
                == PurgeAction::Remove && prev.1[j] == spec_log_entry(robot, records[i], roster, now);
        assert(t.1[j] == prev.1[j]);
        assert(spec_record_action(records[i], roster, now) == PurgeAction::Remove && t.1[j]
            == spec_log_entry(robot, records[i], roster, now));
    } else {
        assert(spec_record_action(records[k - 1], roster, now) == PurgeAction::Remove && t.1[j]
            == spec_log_entry(robot, records[k - 1], roster, now));
    }
}

/// The transition pass keeps record ids pairwise distinct: a robot's store
/// stays a well-formed map from user id to record, tick after tick.
pub proof fn lemma_transition_preserves_unique(
    robot: Robot,
    records: Seq<PurgeData>,
    roster: Seq<User>,
    now: i64,
    k: int,
)
    requires
        record_ids_unique(records),
        0 <= k <= records.len(),
    ensures
        ({
            let kept = spec_transition_upto(robot, records, roster, now, k).0;
            &&& record_ids_unique(kept)
            &&& forall|j: int|
                0 <= j < kept.len() ==> spec_derived_from(#[trigger] kept[j], records, k)
        }),
    decreases k,
{
    if k > 0 {
        lemma_transition_preserves_unique(robot, records, roster, now, k - 1);
        lemma_transition_keeps_schedule(robot, records, roster, now, k);
        let prev = spec_transition_upto(robot, records, roster, now, k - 1).0;
        let kept = spec_transition_upto(robot, records, roster, now, k).0;
        assert forall|a: int, b: int| 0 <= a < b < kept.len() implies kept[a].user.id@
            != kept[b].user.id@ by {
            if b < prev.len() {
                assert(kept[a] == prev[a] && kept[b] == prev[b]);
            } else {
                assert(kept[a] == prev[a]);
                assert(spec_derived_from(prev[a], records, k - 1));
                let i = choose|i: int|
                    0 <= i < k - 1 && {
                        let source = #[trigger] records[i];
                        &&& prev[a].user == source.user
                        &&& prev[a].robot == source.robot
                        &&& prev[a].time == source.time
                        &&& prev[a].reasons == source.reasons
                    };
                assert(kept[b].user == records[k - 1].user);
                assert(records[i].user.id@ != records[k - 1].user.id@);
            }
        }
    }
}

/// A record the state machine leaves alone stays in the store exactly as it
/// was.
pub proof fn lemma_keep_retains_record(
    robot: Robot,
    records: Seq<PurgeData>,
    roster: Seq<User>,
    now: i64,
    k: int,
    i: int,
)
    requires
        0 <= i < k <= records.len(),
        spec_record_action(records[i], roster, now) == PurgeAction::Keep,
    ensures
        spec_transition_upto(robot, records, roster, now, k).0.contains(records[i]),
    decreases k,
{
    let t = spec_transition_upto(robot, records, roster, now, k);
    let prev = spec_transition_upto(robot, records, roster, now, k - 1);
    if i == k - 1 {
        assert(t.0[prev.0.len() as int] == records[i]);
    } else {
        lemma_keep_retains_record(robot, records, roster, now, k - 1, i);
        let a = choose|a: int| 0 <= a < prev.0.len() && prev.0[a] == records[i];
        assert(t.0[a] == records[i]);
    }
}

} // verus!
