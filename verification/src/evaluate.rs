//! The policy evaluator: a pure function from a robot's policy and the
//! fresh roster to the reasons each user is flagged for.
//!
//! Duplicate detection compares every pair of distinct users; for a firing
//! pair the later-created of the two is flagged (on equal creation times,
//! the one later in roster order), so the earlier account stays canonical.
//! Inactivity and active-status detection look at each user alone. A user's
//! reasons are the union over all checks, never overwritten.

use vstd::prelude::*;
use crate::SECONDS_PER_DAY;
use crate::jira::User;
use crate::reasons::ReasonSet;
use crate::robot::RobotScheduler;
use crate::similarity::{similar, spec_similar};

verus! {

/// Whether user `m` counts as the earlier account of the pair `(m, k)`:
/// created strictly earlier, or created at the same time and listed earlier
/// in the roster.
pub open spec fn spec_earlier(roster: Seq<User>, m: int, k: int) -> bool {
    ||| roster[m].created < roster[k].created
    ||| (roster[m].created == roster[k].created && m < k)
}

/// Whether the pair `(m, k)` flags user `k` as a duplicate by email: the
/// two emails are similar and `m` is the earlier account.
pub open spec fn spec_email_dup_pair(roster: Seq<User>, m: int, k: int) -> bool {
    spec_similar(roster[m].email@, roster[k].email@) && spec_earlier(roster, m, k)
}

/// Whether the pair `(m, k)` flags user `k` as a duplicate by display name.
pub open spec fn spec_name_dup_pair(roster: Seq<User>, m: int, k: int) -> bool {
    spec_similar(roster[m].display_name@, roster[k].display_name@) && spec_earlier(roster, m, k)
}

/// Whether some earlier account makes user `k` a duplicate by email.
pub open spec fn spec_email_flagged(roster: Seq<User>, k: int) -> bool {
    exists|m: int| 0 <= m < roster.len() && m != k && #[trigger] spec_email_dup_pair(roster, m, k)
}

/// Whether some earlier account makes user `k` a duplicate by display name.
pub open spec fn spec_name_flagged(roster: Seq<User>, k: int) -> bool {
    exists|m: int| 0 <= m < roster.len() && m != k && #[trigger] spec_name_dup_pair(roster, m, k)
}

/// The reasons the policy flags user `k` for at `now`: the union of the
/// four independent checks, each only if its toggle is on (an inactivity
/// threshold of 0 disables that check).
pub open spec fn spec_user_reasons(sch: RobotScheduler, roster: Seq<User>, k: int, now: i64) -> ReasonSet {
    ReasonSet {
        active_status: sch.check_active_status && !roster[k].active,
        last_active: sch.last_active > 0 && roster[k].spec_available_presence() + sch.last_active
            * SECONDS_PER_DAY <= now,
        duplicate_email: sch.check_double_email && spec_email_flagged(roster, k),
        duplicate_name: sch.check_double_name && spec_name_flagged(roster, k),
    }
}

/// The evaluator's full output: one reason set per roster user, in roster
/// order.
pub open spec fn spec_evaluation(sch: RobotScheduler, roster: Seq<User>, now: i64) -> Seq<ReasonSet> {
    Seq::new(roster.len(), |k: int| spec_user_reasons(sch, roster, k, now))
}

/// Whether user `m` counts as the earlier account of the pair `(m, k)`, per
/// `spec_earlier`.
fn earlier(roster: &Vec<User>, m: usize, k: usize) -> (r: bool)
    requires
        m < roster@.len(),
        k < roster@.len(),
    ensures
        r == spec_earlier(roster@, m as int, k as int),
{
    let created_m = roster[m].created;
    let created_k = roster[k].created;
    created_m < created_k || (created_m == created_k && m < k)
}

/// The two duplicate flags for user `k`: whether some earlier account is
/// similar by email, and whether some is similar by display name, each only
/// if its toggle is on.
fn duplicate_flags(sch: &RobotScheduler, roster: &Vec<User>, k: usize) -> (r: (bool, bool))
    requires
        k < roster@.len(),
    ensures
        r.0 == (sch.check_double_email && spec_email_flagged(roster@, k as int)),
        r.1 == (sch.check_double_name && spec_name_flagged(roster@, k as int)),
{
    let mut dup_email = false;
    let mut dup_name = false;
    if !sch.check_double_email && !sch.check_double_name {
        return (false, false);
    }
    let mut m: usize = 0;
    while m < roster.len()
        invariant
            k < roster@.len(),
            m <= roster@.len(),
            dup_email == (sch.check_double_email && exists|j: int|
                0 <= j < m && j != k && #[trigger] spec_email_dup_pair(roster@, j, k as int)),
            dup_name == (sch.check_double_name && exists|j: int|
                0 <= j < m && j != k && #[trigger] spec_name_dup_pair(roster@, j, k as int)),
        decreases roster@.len() - m,
    {
        if m != k && earlier(roster, m, k) {
            if sch.check_double_email && !dup_email {
                if similar(roster[m].email.as_str(), roster[k].email.as_str()) {
                    dup_email = true;
                    proof {
                        assert(spec_email_dup_pair(roster@, m as int, k as int));
                    }
                }
            }
            if sch.check_double_name && !dup_name {
                if similar(roster[m].display_name.as_str(), roster[k].display_name.as_str()) {
                    dup_name = true;
                    proof {
                        assert(spec_name_dup_pair(roster@, m as int, k as int));
                    }
                }
            }
        }
        m = m + 1;
    }
    (dup_email, dup_name)
}

/// Evaluates the policy against the roster at `now`: for each user, in
/// roster order, the set of reasons the user is flagged for, per
/// `spec_user_reasons`. Pure and total; an empty reason set means the user
/// is not a candidate.
pub fn evaluate(sch: &RobotScheduler, roster: &Vec<User>, now: i64) -> (r: Vec<ReasonSet>)
    ensures
        r@.len() == roster@.len(),
        forall|k: int| 0 <= k < roster@.len() ==> r@[k] == spec_user_reasons(*sch, roster@, k, now),
        r@ == spec_evaluation(*sch, roster@, now),
{
    let mut out: Vec<ReasonSet> = Vec::new();
    let mut k: usize = 0;
    while k < roster.len()
        invariant
            k <= roster@.len(),
            out@.len() == k,
            forall|i: int| 0 <= i < k ==> out@[i] == spec_user_reasons(*sch, roster@, i, now),
        decreases roster@.len() - k,
    {
        let active_status = sch.check_active_status && !roster[k].active;
        let last_active = sch.last_active > 0 && (roster[k].get_available_presence() as i128)
            + (sch.last_active as i128) * (SECONDS_PER_DAY as i128) <= now as i128;
        let (duplicate_email, duplicate_name) = duplicate_flags(sch, roster, k);
        out.push(ReasonSet { active_status, last_active, duplicate_email, duplicate_name });
        k = k + 1;
    }
    proof {
        assert(out@ =~= spec_evaluation(*sch, roster@, now));
    }
    out
}

} // verus!
