//! Robots: per-organization automation profiles with credentials and a
//! removal policy, and the check that decides whether a robot is due for a
//! fresh policy evaluation.

use vstd::prelude::*;
use crate::SECONDS_PER_DAY;

verus! {

/// The store's identity of a robot, absent until the robot is persisted.
#[derive(Clone, Copy, Debug, PartialEq, Eq, Structural)]
pub struct RobotIdentifier {
    pub unique: Option<u64>,
}

/// The directory credentials a robot authenticates with.
#[derive(Clone, Debug, PartialEq, Eq)]
pub struct RobotCredential {
    pub platform_email: String,
    pub platform_api_key: String,
    pub cloud_session_token: String,
}

/// The removal policy a robot applies: the re-evaluation interval, the
/// inactivity threshold (0 disables that check), and the toggles of the
/// duplicate and active-status checks. Day counts, not seconds.
#[derive(Clone, Copy, Debug, PartialEq, Eq, Structural)]
pub struct RobotScheduler {
    pub schedule: i64,
    pub last_active: i64,
    pub check_double_name: bool,
    pub check_double_email: bool,
    pub check_active_status: bool,
}

/// A robot's credential and policy together, as persisted in the policy
/// blob.
#[derive(Clone, Debug, PartialEq, Eq)]
pub struct RobotConfig {
    pub credential: RobotCredential,
    pub scheduler: RobotScheduler,
}

/// A robot's stored identity and bookkeeping: whether it runs at all, and
/// when it was created and last fully evaluated.
#[derive(Clone, Debug, PartialEq, Eq)]
pub struct RobotData {
    pub id: RobotIdentifier,
    pub name: String,
    pub description: String,
    pub active: bool,
    pub created: Option<i64>,
    pub modified: Option<i64>,
}

/// A robot: stored data plus the policy configuration.
#[derive(Clone, Debug, PartialEq, Eq)]
pub struct Robot {
    pub data: RobotData,
    pub config: RobotConfig,
}

impl RobotCredential {
    /// A copy of this credential, equal to the original.
    pub fn duplicate(&self) -> (r: Self)
        ensures
            r == *self,
    {
        Self {
            platform_email: self.platform_email.clone(),
            platform_api_key: self.platform_api_key.clone(),
            cloud_session_token: self.cloud_session_token.clone(),
        }
    }
}

impl RobotConfig {
    /// A copy of this configuration, equal to the original.
    pub fn duplicate(&self) -> (r: Self)
        ensures
            r == *self,
    {
        Self { credential: self.credential.duplicate(), scheduler: self.scheduler }
    }
}

impl RobotData {
    /// A copy of this data, equal to the original.
    pub fn duplicate(&self) -> (r: Self)
        ensures
            r == *self,
    {
        Self {
            id: self.id,
            name: self.name.clone(),
            description: self.description.clone(),
            active: self.active,
            created: self.created,
            modified: self.modified,
        }
    }
}

impl Robot {
    /// A copy of this robot, equal to the original. The derived `Clone`
    /// says nothing to the verifier; this copy does.
    pub fn duplicate(&self) -> (r: Self)
        ensures
            r == *self,
    {
        Self { data: self.data.duplicate(), config: self.config.duplicate() }
    }

    /// Pairs stored data with a policy configuration.
    pub fn new(data: RobotData, config: RobotConfig) -> (r: Self)
        ensures
            r.data == data,
            r.config == config,
    {
        Self { data, config }
    }

    /// Whether the last full policy evaluation is still fresh at `now`: a
    /// robot never evaluated is never fresh; otherwise fresh until
    /// `schedule` days after the last evaluation.
    pub open spec fn spec_is_updated(&self, now: i64) -> bool {
        match self.data.modified {
            Some(m) => now <= m + self.config.scheduler.schedule * SECONDS_PER_DAY,
            None => false,
        }
    }

    /// Whether the last full policy evaluation is still fresh at `now`, per
    /// `spec_is_updated`.
    pub fn is_updated(&self, now: i64) -> (r: bool)
        ensures
            r == self.spec_is_updated(now),
    {
        match self.data.modified {
            Some(m) => {
                now as i128 <= m as i128 + self.config.scheduler.schedule as i128
                    * SECONDS_PER_DAY as i128
            },
            None => false,
        }
    }
}

/// The robots of the first `k` that are switched on, in order.
pub open spec fn spec_active_robots_upto(robots: Seq<Robot>, k: int) -> Seq<Robot>
    decreases k,
{
    if k <= 0 {
        Seq::empty()
    } else {
        let prev = spec_active_robots_upto(robots, k - 1);
        if robots[k - 1].data.active {
            prev.push(robots[k - 1])
        } else {
            prev
        }
    }
}

/// The robots that are switched on, in order.
pub open spec fn spec_active_robots(robots: Seq<Robot>) -> Seq<Robot> {
    spec_active_robots_upto(robots, robots.len() as int)
}

/// The robots that are switched on, in order, per `spec_active_robots`: only
/// these are ever evaluated.
pub fn get_active_robots(robots: &Vec<Robot>) -> (r: Vec<Robot>)
    ensures
        r@ == spec_active_robots(robots@),
{
    let mut out: Vec<Robot> = Vec::new();
    let mut k: usize = 0;
    while k < robots.len()
        invariant
            k <= robots@.len(),
            out@ == spec_active_robots_upto(robots@, k as int),
        decreases robots@.len() - k,
    {
        if robots[k].data.active {
            out.push(robots[k].duplicate());
        }
        k = k + 1;
    }
    out
}

/// The platform flavor a robot talks to.
#[derive(Clone, Copy, Debug, PartialEq, Eq, Structural)]
pub enum PlatformType {
    Cloud,
    Server,
}

/// The fields an operator supplies when registering a robot.
#[derive(Clone, Debug, PartialEq, Eq)]
pub struct RobotForm {
    pub name: String,
    pub description: String,
    pub platform_email: String,
    pub platform_api_key: String,
    pub platform_type: PlatformType,
    pub cloud_session_token: String,
    pub active: bool,
    pub schedule: i64,
    pub last_active: i64,
    pub check_active_status: bool,
    pub check_double_email: bool,
    pub check_double_name: bool,
}

/// A partial robot, as a patch or query sends it: every field optional.
#[derive(Clone, Debug, PartialEq, Eq)]
pub struct RobotQuery {
    pub id: Option<u64>,
    pub name: Option<String>,
    pub description: Option<String>,
    pub platform_email: Option<String>,
    pub platform_api_key: Option<String>,
    pub platform_type: Option<PlatformType>,
    pub cloud_session_token: Option<String>,
    pub active: Option<bool>,
    pub schedule: Option<i64>,
    pub last_active: Option<i64>,
    pub check_active_status: Option<bool>,
    pub check_double_email: Option<bool>,
    pub check_double_name: Option<bool>,
    pub last_updated: Option<i64>,
}

/// Builds a `RobotQuery` field by field; chaining moves the builder.
#[derive(Clone, Debug, PartialEq, Eq)]
pub struct RobotBuilder {
    pub id: Option<u64>,
    pub name: Option<String>,
    pub description: Option<String>,
    pub platform_email: Option<String>,
    pub platform_api_key: Option<String>,
    pub platform_type: Option<PlatformType>,
    pub cloud_session_token: Option<String>,
    pub active: Option<bool>,
    pub scheduler: Option<i64>,
    pub last_active: Option<i64>,
    pub check_active_status: Option<bool>,
    pub check_double_email: Option<bool>,
    pub check_double_name: Option<bool>,
    pub last_updated: Option<i64>,
}

impl RobotBuilder {
    /// A builder with every field unset.
    pub fn new() -> (r: Self)
        ensures
            r == (RobotBuilder {
                id: None,
                name: None,
                description: None,
                platform_email: None,
                platform_api_key: None,
                platform_type: None,
                cloud_session_token: None,
                active: None,
                scheduler: None,
                last_active: None,
                check_active_status: None,
                check_double_email: None,
                check_double_name: None,
                last_updated: None,
            }),
    {
        Self {
            id: None,
            name: None,
            description: None,
            platform_email: None,
            platform_api_key: None,
            platform_type: None,
            cloud_session_token: None,
            active: None,
            scheduler: None,
            last_active: None,
            check_active_status: None,
            check_double_email: None,
            check_double_name: None,
            last_updated: None,
        }
    }

    /// Sets the store identity.
    pub fn id(self, value: Option<u64>) -> (r: Self)
        ensures
            r == (RobotBuilder { id: value, ..self }),
    {
        Self { id: value, ..self }
    }

    /// Sets the display name.
    pub fn name(self, value: Option<String>) -> (r: Self)
        ensures
            r == (RobotBuilder { name: value, ..self }),
    {
        Self { name: value, ..self }
    }

    /// Sets the description.
    pub fn description(self, value: Option<String>) -> (r: Self)
        ensures
            r == (RobotBuilder { description: value, ..self }),
    {
        Self { description: value, ..self }
    }

    /// Sets the platform account email.
    pub fn platform_email(self, value: Option<String>) -> (r: Self)
        ensures
            r == (RobotBuilder { platform_email: value, ..self }),
    {
        Self { platform_email: value, ..self }
    }

    /// Sets the platform API key.
    pub fn platform_api_key(self, value: Option<String>) -> (r: Self)
        ensures
            r == (RobotBuilder { platform_api_key: value, ..self }),
    {
        Self { platform_api_key: value, ..self }
    }

    /// Sets the platform flavor.
    pub fn platform_type(self, value: Option<PlatformType>) -> (r: Self)
        ensures
            r == (RobotBuilder { platform_type: value, ..self }),
    {
        Self { platform_type: value, ..self }
    }

    /// Sets the directory session token.
    pub fn cloud_session_token(self, value: Option<String>) -> (r: Self)
        ensures
            r == (RobotBuilder { cloud_session_token: value, ..self }),
    {
        Self { cloud_session_token: value, ..self }
    }

    /// Sets whether the robot runs at all.
    pub fn active(self, value: Option<bool>) -> (r: Self)
        ensures
            r == (RobotBuilder { active: value, ..self }),
    {
        Self { active: value, ..self }
    }

    /// Sets the re-evaluation interval in days.
    pub fn schedule(self, value: Option<i64>) -> (r: Self)
        ensures
            r == (RobotBuilder { scheduler: value, ..self }),
    {
        Self { scheduler: value, ..self }
    }

    /// Sets the inactivity threshold in days.
    pub fn last_active(self, value: Option<i64>) -> (r: Self)
        ensures
            r == (RobotBuilder { last_active: value, ..self }),
    {
        Self { last_active: value, ..self }
    }

    /// Sets the active-status check toggle.
    pub fn check_active_status(self, value: Option<bool>) -> (r: Self)
        ensures
            r == (RobotBuilder { check_active_status: value, ..self }),
    {
        Self { check_active_status: value, ..self }
    }

    /// Sets the duplicate-email check toggle.
    pub fn check_double_email(self, value: Option<bool>) -> (r: Self)
        ensures
            r == (RobotBuilder { check_double_email: value, ..self }),
    {
        Self { check_double_email: value, ..self }
    }

    /// Sets the duplicate-name check toggle.
    pub fn check_double_name(self, value: Option<bool>) -> (r: Self)
        ensures
            r == (RobotBuilder { check_double_name: value, ..self }),
    {
        Self { check_double_name: value, ..self }
    }

    /// Sets the last full-evaluation stamp.
    pub fn last_updated(self, value: Option<i64>) -> (r: Self)
        ensures
            r == (RobotBuilder { last_updated: value, ..self }),
    {
        Self { last_updated: value, ..self }
    }

    /// The query the builder has assembled.
    pub fn finish(&self) -> (r: RobotQuery)
        ensures
            r == (RobotQuery {
                id: self.id,
                name: self.name,
                description: self.description,
                platform_email: self.platform_email,
                platform_api_key: self.platform_api_key,
                platform_type: self.platform_type,
                cloud_session_token: self.cloud_session_token,
                active: self.active,
                schedule: self.scheduler,
                last_active: self.last_active,
                check_active_status: self.check_active_status,
                check_double_email: self.check_double_email,
                check_double_name: self.check_double_name,
                last_updated: self.last_updated,
            }),
    {
        RobotQuery {
            id: self.id,
            name: crate::jira::copy_opt_string(&self.name),
            description: crate::jira::copy_opt_string(&self.description),
            platform_email: crate::jira::copy_opt_string(&self.platform_email),
            platform_api_key: crate::jira::copy_opt_string(&self.platform_api_key),
            platform_type: self.platform_type,
            cloud_session_token: crate::jira::copy_opt_string(&self.cloud_session_token),
            active: self.active,
            schedule: self.scheduler,
            last_active: self.last_active,
            check_active_status: self.check_active_status,
            check_double_email: self.check_double_email,
            check_double_name: self.check_double_name,
            last_updated: self.last_updated,
        }
    }
}

} // verus!
