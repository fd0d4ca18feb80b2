//! Commands: the plain-value request bodies of the API. On update
//! commands every field is optional; `None` means "leave unchanged".

use vstd::prelude::*;

use crate::decimal::Decimal;
use crate::enums::{Priority, ProjectStatus, TaskStatus, TeamMemberRole, UserRole};

verus! {

#[derive(Debug)]
pub struct CreateUserCommand {
    pub email: String,
    pub password: String,
    pub name: String,
    pub role: Option<UserRole>,
}

#[derive(Debug)]
pub struct UpdateUserCommand {
    pub name: Option<String>,
    pub role: Option<UserRole>,
    pub avatar_url: Option<String>,
}

#[derive(Debug)]
pub struct CreateProjectCommand {
    pub name: String,
    pub description: Option<String>,
    pub status: Option<ProjectStatus>,
    pub priority: Option<Priority>,
    pub start_date: Option<i64>,
    pub end_date: Option<i64>,
    pub budget: Option<Decimal>,
}

#[derive(Debug)]
pub struct UpdateProjectCommand {
    pub name: Option<String>,
    pub description: Option<String>,
    pub status: Option<ProjectStatus>,
    pub priority: Option<Priority>,
    pub start_date: Option<i64>,
    pub end_date: Option<i64>,
    pub budget: Option<Decimal>,
}

/// Task hour estimates are carried in hundredths of an hour.
#[derive(Debug)]
pub struct CreateTaskCommand {
    pub project_id: u128,
    pub title: String,
    pub description: Option<String>,
    pub priority: Option<Priority>,
    pub assignee_id: Option<u128>,
    pub due_date: Option<i64>,
    pub estimated_hours: Option<i64>,
}

#[derive(Debug)]
pub struct UpdateTaskCommand {
    pub title: Option<String>,
    pub description: Option<String>,
    pub status: Option<TaskStatus>,
    pub priority: Option<Priority>,
    pub assignee_id: Option<u128>,
    pub due_date: Option<i64>,
    pub estimated_hours: Option<i64>,
    pub actual_hours: Option<i64>,
}

#[derive(Debug)]
pub struct CreateTeamCommand {
    pub name: String,
    pub description: Option<String>,
    pub lead_id: Option<u128>,
}

#[derive(Debug)]
pub struct UpdateTeamCommand {
    pub name: Option<String>,
    pub description: Option<String>,
    pub lead_id: Option<u128>,
}

#[derive(Debug)]
pub struct AddTeamMemberCommand {
    pub user_id: u128,
    pub role: Option<TeamMemberRole>,
}

#[derive(Debug)]
pub struct LoginCommand {
    pub email: String,
    pub password: String,
}

#[derive(Debug)]
pub struct CreateTagCommand {
    pub name: String,
    pub color: Option<String>,
    pub description: Option<String>,
}

#[derive(Debug)]
pub struct UpdateTagCommand {
    pub name: Option<String>,
    pub color: Option<String>,
    pub description: Option<String>,
}

#[derive(Debug)]
pub struct SetTaskTagsCommand {
    pub tag_ids: Vec<u128>,
}

} // verus!
