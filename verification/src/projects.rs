//! Project and role records, as the directory's project API reports them.
//! Plain data carried through to the surrounding service; the purge engine
//! itself does not act on projects.

use vstd::prelude::*;

verus! {

/// The project a role is scoped to.
#[derive(Clone, Debug, PartialEq, Eq)]
pub struct ProjectScope {
    pub id: String,
}

/// The scope of one role grant.
#[derive(Clone, Debug, PartialEq, Eq)]
pub struct RoleScope {
    pub scope_type: String,
    pub project: ProjectScope,
}

/// The account a role actor stands for.
#[derive(Clone, Debug, PartialEq, Eq)]
pub struct User {
    pub account_id: String,
}

/// One actor holding a role in a project.
#[derive(Clone, Debug, PartialEq, Eq)]
pub struct Actor {
    pub id: i32,
    pub display_name: String,
    pub actor_type: String,
    pub actor_user: User,
}

/// One role with its actors and scope.
#[derive(Clone, Debug, PartialEq, Eq)]
pub struct RoleData {
    pub url: String,
    pub name: String,
    pub id: i32,
    pub description: String,
    pub actors: Vec<Actor>,
    pub scope: RoleScope,
}

/// The role the directory reports without a stable name.
#[derive(Clone, Debug, PartialEq, Eq)]
pub struct UnknownRole {
    pub atlassian_addons_project_access: String,
}

/// The role URLs of one project.
#[derive(Clone, Debug, PartialEq, Eq)]
pub struct Role {
    pub unknown: UnknownRole,
    pub administrator: String,
    pub viewer: String,
    pub member: String,
}

/// A project's avatar in its four sizes.
#[derive(Clone, Debug, PartialEq, Eq)]
pub struct AvatarUrls {
    pub very_large: String,
    pub medium: String,
    pub small: String,
    pub large: String,
}

/// A project's free-form properties.
#[derive(Clone, Debug, PartialEq, Eq)]
pub struct Properties {}

/// One project of the organization.
#[derive(Clone, Debug, PartialEq, Eq)]
pub struct Project {
    pub expand: String,
    pub url: String,
    pub id: String,
    pub key: String,
    pub name: String,
    pub avatar_urls: AvatarUrls,
    pub project_type_key: String,
    pub simplified: bool,
    pub style: String,
    pub is_private: bool,
    pub properties: Properties,
    pub entity_id: Option<String>,
    pub uuid: Option<String>,
}

/// One page of the project list.
#[derive(Clone, Debug, PartialEq, Eq)]
pub struct Data {
    pub url: String,
    pub max_results: i32,
    pub start_at: i32,
    pub total: i32,
    pub is_last: bool,
    pub values: Vec<Project>,
}

} // verus!
