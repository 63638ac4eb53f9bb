//! Directory users as the roster source reports them, and the one piece of
//! temporal logic every inactivity check shares: effective last activity.
//!
//! Timestamps are Unix seconds. The directory's own wire format is handled
//! outside this crate; here the user is plain data.

use vstd::prelude::*;

verus! {

/// A pending invitation attached to a directory user.
#[derive(Clone, Debug, PartialEq, Eq)]
pub struct InvitationStatus {
    pub invited_at: i64,
    pub status: String,
}

/// Whether an account is managed by the organization, and by whom.
#[derive(Clone, Debug, PartialEq, Eq)]
pub struct ManagedStatus {
    pub managed: bool,
    pub owner: Option<String>,
}

/// One user of the directory, as the roster reports it for a tick.
#[derive(Clone, Debug, PartialEq, Eq)]
pub struct User {
    pub platform_role: Option<String>,
    pub id: String,
    pub email: String,
    pub display_name: String,
    pub active: bool,
    pub has_verified_email: bool,
    pub picture: String,
    pub active_status: String,
    pub nickname: String,
    pub title: Option<String>,
    pub timezone: Option<String>,
    pub location: Option<String>,
    pub company_name: Option<String>,
    pub department: Option<String>,
    pub presence: Option<i64>,
    pub created: i64,
    pub invitation_status: Option<InvitationStatus>,
    pub system: bool,
    pub org_admin: bool,
    pub site_admin: bool,
    pub sys_admin: bool,
    pub trusted_user: bool,
    pub presence_unavailable: Option<bool>,
    pub managed_status: ManagedStatus,
}

/// One page of the roster, as the directory returns it.
#[derive(Clone, Debug, PartialEq, Eq)]
pub struct Users {
    pub users: Vec<User>,
    pub total: i32,
}

/// A copy of an optional string, equal to the original.
pub fn copy_opt_string(s: &Option<String>) -> (r: Option<String>)
    ensures
        r == *s,
{
    match s {
        Some(v) => Some(v.clone()),
        None => None,
    }
}

impl InvitationStatus {
    /// A copy of this invitation, equal to the original.
    pub fn duplicate(&self) -> (r: Self)
        ensures
            r == *self,
    {
        Self { invited_at: self.invited_at, status: self.status.clone() }
    }
}

impl ManagedStatus {
    /// A copy of this status, equal to the original.
    pub fn duplicate(&self) -> (r: Self)
        ensures
            r == *self,
    {
        Self { managed: self.managed, owner: copy_opt_string(&self.owner) }
    }
}

impl User {
    /// A copy of this user, equal to the original. The derived `Clone` says
    /// nothing to the verifier; this copy does.
    pub fn duplicate(&self) -> (r: Self)
        ensures
            r == *self,
    {
        Self {
            platform_role: copy_opt_string(&self.platform_role),
            id: self.id.clone(),
            email: self.email.clone(),
            display_name: self.display_name.clone(),
            active: self.active,
            has_verified_email: self.has_verified_email,
            picture: self.picture.clone(),
            active_status: self.active_status.clone(),
            nickname: self.nickname.clone(),
            title: copy_opt_string(&self.title),
            timezone: copy_opt_string(&self.timezone),
            location: copy_opt_string(&self.location),
            company_name: copy_opt_string(&self.company_name),
            department: copy_opt_string(&self.department),
            presence: self.presence,
            created: self.created,
            invitation_status: match &self.invitation_status {
                Some(inv) => Some(inv.duplicate()),
                None => None,
            },
            system: self.system,
            org_admin: self.org_admin,
            site_admin: self.site_admin,
            sys_admin: self.sys_admin,
            trusted_user: self.trusted_user,
            presence_unavailable: self.presence_unavailable,
            managed_status: self.managed_status.duplicate(),
        }
    }

    /// Effective last activity: the presence timestamp if one was recorded,
    /// else the invitation time if an invitation exists, else the account's
    /// creation time.
    pub open spec fn spec_available_presence(&self) -> i64 {
        match self.presence {
            Some(p) => p,
            None => match self.invitation_status {
                Some(inv) => inv.invited_at,
                None => self.created,
            },
        }
    }

    /// Effective last activity, per `spec_available_presence`. Every
    /// inactivity check goes through this one fallback chain.
    pub fn get_available_presence(&self) -> (r: i64)
        ensures
            r == self.spec_available_presence(),
    {
        match self.presence {
            Some(p) => p,
            None => match &self.invitation_status {
                Some(inv) => inv.invited_at,
                None => self.created,
            },
        }
    }
}

/// Whether the users all have pairwise distinct ids: what makes a roster a
/// well-formed map from user id to user.
pub open spec fn user_ids_unique(users: Seq<User>) -> bool {
    forall|i: int, j: int|
        0 <= i < j < users.len() ==> users[i].id@ != users[j].id@
}

/// Whether some roster user has the given id.
pub open spec fn spec_user_present(roster: Seq<User>, id: Seq<char>) -> bool {
    exists|i: int| 0 <= i < roster.len() && (#[trigger] roster[i]).id@ == id
}

/// The roster user with the given id; unique when the roster's ids are.
pub open spec fn spec_user_for(roster: Seq<User>, id: Seq<char>) -> User {
    roster[choose|i: int| 0 <= i < roster.len() && (#[trigger] roster[i]).id@ == id]
}

/// The index of the first roster user with the given id, if any.
pub fn find_user(roster: &Vec<User>, id: &String) -> (r: Option<usize>)
    ensures
        match r {
            Some(i) => 0 <= i < roster@.len() && roster@[i as int].id@ == id@,
            None => forall|i: int| 0 <= i < roster@.len() ==> roster@[i].id@ != id@,
        },
{
    let mut i: usize = 0;
    while i < roster.len()
        invariant
            0 <= i <= roster@.len(),
            forall|j: int| 0 <= j < i ==> roster@[j].id@ != id@,
        decreases roster@.len() - i,
    {
        if roster[i].id == *id {
            return Some(i);
        }
        i = i + 1;
    }
    None
}

/// A user's membership in one project role, as the directory reports it.
#[derive(Clone, Debug, PartialEq, Eq)]
pub struct ProjectRoleUser {
    pub account_id: String,
}

/// An actor bound to a project role.
#[derive(Clone, Debug, PartialEq, Eq)]
pub struct RoleActor {
    pub display_name: String,
    pub actor_user: ProjectRoleUser,
}

/// The project a role is scoped to.
#[derive(Clone, Debug, PartialEq, Eq)]
pub struct ProjectDetails {
    pub id: String,
}

/// The scope of a project role.
#[derive(Clone, Debug, PartialEq, Eq)]
pub struct Scope {
    pub project: ProjectDetails,
}

/// One project role with its actors, as the directory reports it.
#[derive(Clone, Debug, PartialEq, Eq)]
pub struct ProjectRole {
    pub id: i64,
    pub actors: Option<Vec<RoleActor>>,
    pub scope: Option<Scope>,
}

} // verus!
