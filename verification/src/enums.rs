//! Value-object enumerations: user roles, project and task lifecycle
//! states, priorities and team membership roles.

use vstd::prelude::*;

verus! {

/// Global permission signal carried by every authenticated principal.
/// `Admin` overrides access checks on projects, tasks, teams and tags,
/// but never on notifications.
#[derive(Clone, Copy, Debug, PartialEq, Eq, Structural)]
pub enum UserRole {
    Admin,
    Manager,
    Member,
}

impl Default for UserRole {
    fn default() -> (r: Self)
        ensures
            r == UserRole::Member,
    {
        UserRole::Member
    }
}

#[derive(Clone, Copy, Debug, PartialEq, Eq, Structural)]
pub enum ProjectStatus {
    Planning,
    Active,
    OnHold,
    Completed,
    Cancelled,
}

impl Default for ProjectStatus {
    fn default() -> (r: Self)
        ensures
            r == ProjectStatus::Planning,
    {
        ProjectStatus::Planning
    }
}

#[derive(Clone, Copy, Debug, PartialEq, Eq, Structural)]
pub enum Priority {
    Low,
    Medium,
    High,
    Critical,
}

impl Default for Priority {
    fn default() -> (r: Self)
        ensures
            r == Priority::Medium,
    {
        Priority::Medium
    }
}

#[derive(Clone, Copy, Debug, PartialEq, Eq, Structural)]
pub enum TaskStatus {
    Todo,
    InProgress,
    Review,
    Done,
    Blocked,
}

impl Default for TaskStatus {
    fn default() -> (r: Self)
        ensures
            r == TaskStatus::Todo,
    {
        TaskStatus::Todo
    }
}

/// Role recorded on a team membership row. Data-only: permission checks
/// on teams go through `Team.lead_id`, never through this field.
#[derive(Clone, Copy, Debug, PartialEq, Eq, Structural)]
pub enum TeamMemberRole {
    Lead,
    Member,
}

impl Default for TeamMemberRole {
    fn default() -> (r: Self)
        ensures
            r == TeamMemberRole::Member,
    {
        TeamMemberRole::Member
    }
}

} // verus!
