//! Purge records and the per-record state machine.
//!
//! A purge record stages one (robot, user) pair for removal: a snapshot of
//! the user at detection time, the accumulated reasons, the scheduled removal
//! time (detection time plus the grace window), and the time of the last
//! warning, if any. Each tick, `decide` maps a record, the user's current
//! roster entry and `now` to one of four actions: remove, warn, clear, or
//! leave alone.

use vstd::prelude::*;
use crate::SECONDS_PER_DAY;
use crate::jira::User;
use crate::reasons::{PurgeReason, ReasonSet};
use crate::robot::Robot;

verus! {

/// The snapshot of a user taken when the record was created: identity,
/// display name, email, and effective last activity at detection time.
#[derive(Clone, Debug, PartialEq, Eq)]
pub struct PurgeUser {
    pub id: String,
    pub display_name: String,
    pub email: String,
    pub presence: i64,
}

/// The robot a purge record belongs to.
#[derive(Clone, Copy, Debug, PartialEq, Eq, Structural)]
pub struct PurgeRobot {
    pub id: u64,
}

/// One staged removal candidate: at most one record exists per
/// (robot, user) pair. `time` is the scheduled removal instant; `alert` is
/// the last warning instant, `None` until the first warning.
#[derive(Clone, Debug, PartialEq, Eq)]
pub struct PurgeData {
    pub user: PurgeUser,
    pub robot: PurgeRobot,
    pub time: i64,
    pub alert: Option<i64>,
    pub reasons: ReasonSet,
}

/// The durable trail of one removal: the robot, the user's full record at
/// removal time, the reasons, and the removal instant. Written exactly once
/// per removal, before the record is deleted.
#[derive(Clone, Debug, PartialEq, Eq)]
pub struct PurgeLog {
    pub user: User,
    pub robot: Robot,
    pub reasons: ReasonSet,
    pub time: i64,
}

impl PurgeLog {
    /// Snapshots a removal into its log entry.
    pub fn new(robot: &Robot, user: &User, reasons: ReasonSet, time: i64) -> (r: Self)
        ensures
            r == (PurgeLog { user: *user, robot: *robot, reasons, time }),
    {
        Self { user: user.duplicate(), robot: robot.duplicate(), reasons, time }
    }
}

impl PurgeUser {
    /// A copy of this snapshot, equal to the original.
    pub fn duplicate(&self) -> (r: Self)
        ensures
            r == *self,
    {
        Self {
            id: self.id.clone(),
            display_name: self.display_name.clone(),
            email: self.email.clone(),
            presence: self.presence,
        }
    }
}

/// The record a new detection creates: a snapshot of the user's current
/// attributes, the detected reasons, removal scheduled at `time`, never
/// warned.
pub open spec fn spec_new_purge_data(robot: Robot, user: User, reasons: ReasonSet, time: i64) -> PurgeData {
    PurgeData {
        user: PurgeUser {
            id: user.id,
            display_name: user.display_name,
            email: user.email,
            presence: user.spec_available_presence(),
        },
        robot: PurgeRobot { id: robot.data.id.unique.unwrap() },
        time,
        alert: None,
        reasons,
    }
}

impl PurgeData {
    /// A copy of this record, equal to the original.
    pub fn duplicate(&self) -> (r: Self)
        ensures
            r == *self,
    {
        Self {
            user: self.user.duplicate(),
            robot: self.robot,
            time: self.time,
            alert: self.alert,
            reasons: self.reasons,
        }
    }

    /// Stages a newly flagged user: snapshot of the current attributes, the
    /// detected reasons, removal scheduled at `time`, never warned.
    pub fn new(robot: &Robot, user: &User, reasons: ReasonSet, time: i64) -> (r: Self)
        requires
            robot.data.id.unique.is_some(),
        ensures
            r == spec_new_purge_data(*robot, *user, reasons, time),
    {
        let presence = user.get_available_presence();
        Self {
            user: PurgeUser {
                id: user.id.clone(),
                display_name: user.display_name.clone(),
                email: user.email.clone(),
                presence,
            },
            robot: PurgeRobot { id: robot.data.id.unique.unwrap() },
            time,
            alert: None,
            reasons,
        }
    }

    /// Whether a warning is due at `now`: never warned, or the last warning
    /// is at least `delay` days old.
    pub open spec fn spec_should_email_user(&self, now: i64, delay: i64) -> bool {
        match self.alert {
            None => true,
            Some(alert) => now >= alert + delay * SECONDS_PER_DAY,
        }
    }

    /// Whether a warning is due at `now`, per `spec_should_email_user`: a
    /// record is warned at most once per `delay`-day window.
    pub fn should_email_user(&self, now: i64, delay: i64) -> (r: bool)
        ensures
            r == self.spec_should_email_user(now, delay),
    {
        match self.alert {
            None => true,
            Some(alert) => {
                now as i128 >= alert as i128 + delay as i128 * SECONDS_PER_DAY as i128
            },
        }
    }

    /// Whether the grace window has expired at `now`.
    pub open spec fn spec_should_remove_user(&self, now: i64) -> bool {
        self.time <= now
    }

    /// Whether the grace window has expired at `now`, per
    /// `spec_should_remove_user`.
    pub fn should_remove_user(&self, now: i64) -> (r: bool)
        ensures
            r == self.spec_should_remove_user(now),
    {
        self.time <= now
    }

    /// Whether one recorded reason still holds of the user's current
    /// attributes, compared against the snapshot taken at detection time.
    pub open spec fn spec_reason_still_holds(&self, user: User, reason: PurgeReason) -> bool {
        match reason {
            PurgeReason::ActiveStatus => !user.active,
            PurgeReason::DuplicateEmail => user.email@ == self.user.email@,
            PurgeReason::DuplicateName => user.display_name@ == self.user.display_name@,
            PurgeReason::LastActive => user.spec_available_presence() <= self.user.presence,
        }
    }

    /// Whether any recorded reason still holds of the user's current
    /// attributes.
    pub open spec fn spec_any_reason_holds(&self, user: User) -> bool {
        ||| (self.reasons.active_status && !user.active)
        ||| (self.reasons.duplicate_email && user.email@ == self.user.email@)
        ||| (self.reasons.duplicate_name && user.display_name@ == self.user.display_name@)
        ||| (self.reasons.last_active && user.spec_available_presence() <= self.user.presence)
    }

    /// Whether any recorded reason still holds, per `spec_any_reason_holds`.
    pub fn any_reason_holds(&self, user: &User) -> (r: bool)
        ensures
            r == self.spec_any_reason_holds(*user),
    {
        if self.reasons.active_status && !user.active {
            return true;
        }
        if self.reasons.duplicate_email && user.email == self.user.email {
            return true;
        }
        if self.reasons.duplicate_name && user.display_name == self.user.display_name {
            return true;
        }
        if self.reasons.last_active && user.get_available_presence() <= self.user.presence {
            return true;
        }
        false
    }

    /// The state-machine step for this record at `now`, given the user's
    /// current roster entry, or `None` if the user left the directory.
    pub open spec fn spec_decide(&self, current: Option<User>, now: i64) -> PurgeAction {
        match current {
            Some(user) => {
                if self.spec_any_reason_holds(user) {
                    if self.spec_should_remove_user(now) {
                        PurgeAction::Remove
                    } else if self.spec_should_email_user(now, crate::WARN_DELAY_DAYS) {
                        PurgeAction::Warn
                    } else {
                        PurgeAction::Keep
                    }
                } else {
                    if self.spec_should_remove_user(now) {
                        PurgeAction::Clear
                    } else {
                        PurgeAction::Keep
                    }
                }
            },
            None => {
                if self.spec_should_remove_user(now) {
                    PurgeAction::Clear
                } else {
                    PurgeAction::Keep
                }
            },
        }
    }

    /// Decides the state-machine step for this record at `now`, per
    /// `spec_decide`: remove once the grace window has expired and a reason
    /// still holds; warn while within the window, at most once per warning
    /// window; clear a record whose reasons all lapsed or whose user left,
    /// but never before the grace window expires.
    pub fn decide(&self, current: Option<&User>, now: i64) -> (a: PurgeAction)
        ensures
            a == self.spec_decide(
                match current {
                    Some(user) => Some(*user),
                    None => None,
                },
                now,
            ),
    {
        match current {
            Some(user) => {
                if self.any_reason_holds(user) {
                    if self.should_remove_user(now) {
                        PurgeAction::Remove
                    } else if self.should_email_user(now, crate::WARN_DELAY_DAYS) {
                        PurgeAction::Warn
                    } else {
                        PurgeAction::Keep
                    }
                } else {
                    if self.should_remove_user(now) {
                        PurgeAction::Clear
                    } else {
                        PurgeAction::Keep
                    }
                }
            },
            None => {
                if self.should_remove_user(now) {
                    PurgeAction::Clear
                } else {
                    PurgeAction::Keep
                }
            },
        }
    }
}

/// What one tick does with one purge record.
#[derive(Clone, Copy, Debug, PartialEq, Eq, Structural)]
pub enum PurgeAction {
    /// Append a log entry, delete the record, and request external removal.
    Remove,
    /// Stamp the warning time and send a warning email.
    Warn,
    /// Delete the record without a log entry or an external call.
    Clear,
    /// Leave the record untouched.
    Keep,
}

/// No early clear: a record whose user stopped matching every recorded
/// reason is not cleared, nor removed, before its scheduled removal time;
/// the tick leaves it alone.
pub proof fn lemma_no_early_clear(record: PurgeData, user: User, now: i64)
    requires
        now < record.time,
        !record.spec_any_reason_holds(user),
    ensures
        record.spec_decide(Some(user), now) == PurgeAction::Keep,
{
}

/// Warn cadence: a record warned at `t0` is not warned again before
/// `t0 + 3 days`, whatever the user's current attributes.
pub proof fn lemma_warn_cadence(record: PurgeData, current: Option<User>, now: i64, t0: i64)
    requires
        record.alert == Some(t0),
        now < t0 + crate::WARN_DELAY_DAYS * SECONDS_PER_DAY,
    ensures
        record.spec_decide(current, now) != PurgeAction::Warn,
{
}

} // verus!
