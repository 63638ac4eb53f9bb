//! The read-model the purge engine offers: which records are queued for a
//! robot, and which removals were logged.

use vstd::prelude::*;
use crate::purge::{PurgeData, PurgeLog};
use crate::robot::RobotIdentifier;

verus! {

/// The records of the first `k` that belong to the given robot, in order.
pub open spec fn spec_records_for_upto(records: Seq<PurgeData>, robot_id: u64, k: int) -> Seq<
    PurgeData,
>
    decreases k,
{
    if k <= 0 {
        Seq::empty()
    } else {
        let prev = spec_records_for_upto(records, robot_id, k - 1);
        if records[k - 1].robot.id == robot_id {
            prev.push(records[k - 1])
        } else {
            prev
        }
    }
}

/// The records that belong to the given robot, in order.
pub open spec fn spec_records_for(records: Seq<PurgeData>, robot_id: u64) -> Seq<PurgeData> {
    spec_records_for_upto(records, robot_id, records.len() as int)
}

/// Every selected record belongs to the robot.
pub proof fn lemma_records_for_sound(records: Seq<PurgeData>, robot_id: u64, k: int)
    requires
        0 <= k <= records.len(),
    ensures
        forall|j: int|
            0 <= j < spec_records_for_upto(records, robot_id, k).len() ==> (
            #[trigger] spec_records_for_upto(records, robot_id, k)[j]).robot.id == robot_id,
    decreases k,
{
    if k > 0 {
        lemma_records_for_sound(records, robot_id, k - 1);
    }
}

/// Every record of the robot is selected.
pub proof fn lemma_records_for_complete(records: Seq<PurgeData>, robot_id: u64, k: int, i: int)
    requires
        0 <= i < k <= records.len(),
        records[i].robot.id == robot_id,
    ensures
        spec_records_for_upto(records, robot_id, k).contains(records[i]),
    decreases k,
{
    if i == k - 1 {
        let prev = spec_records_for_upto(records, robot_id, k - 1);
        assert(spec_records_for_upto(records, robot_id, k)[prev.len() as int] == records[i]);
    } else {
        lemma_records_for_complete(records, robot_id, k - 1, i);
        let prev = spec_records_for_upto(records, robot_id, k - 1);
        let j = choose|j: int| 0 <= j < prev.len() && prev[j] == records[i];
        assert(spec_records_for_upto(records, robot_id, k)[j] == records[i]);
    }
}

/// The records that belong to the given robot, in order, per
/// `spec_records_for`.
pub fn records_for_robot(records: &Vec<PurgeData>, robot_id: u64) -> (r: Vec<PurgeData>)
    ensures
        r@ == spec_records_for(records@, robot_id),
{
    let mut out: Vec<PurgeData> = Vec::new();
    let mut k: usize = 0;
    while k < records.len()
        invariant
            k <= records@.len(),
            out@ == spec_records_for_upto(records@, robot_id, k as int),
        decreases records@.len() - k,
    {
        if records[k].robot.id == robot_id {
            out.push(records[k].duplicate());
        }
        k = k + 1;
    }
    out
}

/// The purge engine's read-model: the records still queued and the
/// removals logged.
#[derive(Clone, Debug, PartialEq, Eq)]
pub struct Report {
    pub queued: Vec<PurgeData>,
    pub removed: Vec<PurgeLog>,
}

impl Report {
    /// Pairs the queued records with the logged removals.
    pub fn new(queued: Vec<PurgeData>, removed: Vec<PurgeLog>) -> (r: Self)
        ensures
            r.queued == queued,
            r.removed == removed,
    {
        Self { queued, removed }
    }
}

/// A request for a report: which robot, and where to send it.
#[derive(Clone, Debug, PartialEq, Eq)]
pub struct Generator {
    pub robot_id: RobotIdentifier,
    pub email: String,
}

/// The report for one robot: its queued records, and the full removal log.
pub fn report_for(records: &Vec<PurgeData>, removed: Vec<PurgeLog>, robot_id: u64) -> (r: Report)
    ensures
        r.queued@ == spec_records_for(records@, robot_id),
        r.removed == removed,
{
    Report::new(records_for_robot(records, robot_id), removed)
}

} // verus!
