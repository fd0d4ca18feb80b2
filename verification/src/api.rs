//! Request flows: what each route does after authentication, with the
//! authorization rule of its resource family applied.
//!
//! The rules, per family: projects are readable by owner, member or
//! Admin and writable by owner or Admin; task access follows the parent
//! project, but task deletion demands the project owner (or Admin);
//! teams mirror projects with the lead in place of the owner; tags are
//! unrestricted among authenticated users; notifications belong to
//! exactly one user, and no role, Admin included, overrides that.
//!
//! Check order, uniform across resources: existence first, then access.
//! A missing resource is reported as not found to every caller; one
//! that exists but is out of reach is reported as forbidden.

use vstd::prelude::*;

use crate::activity::{ActivityAppService, ActivityLog, ActivityLogWithDetails, spec_with_details};
use crate::attachment::{Attachment, AttachmentAppService};
use crate::commands::{
    AddTeamMemberCommand, CreateProjectCommand, CreateTagCommand, CreateTaskCommand,
    CreateTeamCommand, UpdateProjectCommand, UpdateTagCommand, UpdateTaskCommand,
    UpdateTeamCommand,
};
use crate::enums::{Priority, ProjectStatus, TaskStatus, UserRole};
use crate::error::DomainError;
use crate::notification::{notification_idx, Notification, NotificationAppService, spec_marked_read};
use crate::project::{
    project_idx, spec_is_member, spec_project_updated, Milestone, Project, ProjectAppService,
    ProjectRepository,
};
use crate::tag::{
    spec_find_by_name, spec_set_task_tags, spec_tag_updated, spec_task_has_tag, tag_idx,
    tag_name_exists, Tag, TagAppService, TaskTag,
};
use crate::task::{
    spec_task_updated, task_idx, Task, TaskAppService, TaskRepository,
};
use crate::team::{
    spec_is_team_member, spec_team_updated, team_idx, Team, TeamAppService, TeamMember,
    TeamRepository,
};
use crate::order::listed_in_order;
use crate::time_log::{
    spec_in_range, spec_time_log_updated, time_log_idx, CreateTimeLogDto, TimeLog,
    TimeLogAppService, UpdateTimeLogDto,
};
use crate::user::{spec_users_unique, User};

verus! {

/// The authenticated caller of a request: an identifier and the global
/// role, nothing more.
#[derive(Clone, Copy, Debug, PartialEq, Eq, Structural)]
pub struct Principal {
    pub id: u128,
    pub role: UserRole,
}

pub open spec fn is_admin(principal: Principal) -> bool {
    principal.role is Admin
}

/// Project read: owner, member or Admin.
pub open spec fn project_read_allowed(
    repo: &ProjectRepository,
    principal: Principal,
    project_id: u128,
) -> bool {
    is_admin(principal) || repo.spec_can_access(project_id, principal.id)
}

/// Project update and delete: owner or Admin.
pub open spec fn project_write_allowed(
    repo: &ProjectRepository,
    principal: Principal,
    project_id: u128,
) -> bool {
    is_admin(principal) || repo.spec_is_owner(project_id, principal.id)
}

/// Task read and update: access to the parent project, or Admin.
pub open spec fn task_update_allowed(
    tasks: &TaskRepository,
    projects: &ProjectRepository,
    principal: Principal,
    task_id: u128,
) -> bool {
    is_admin(principal) || tasks.spec_can_access(projects, task_id, principal.id)
}

/// Task delete, stricter than update: the parent project's owner, or
/// Admin. A mere project member may update a task but never delete it.
pub open spec fn task_delete_allowed(
    tasks: &TaskRepository,
    projects: &ProjectRepository,
    principal: Principal,
    task_id: u128,
) -> bool {
    is_admin(principal) || tasks.spec_is_project_owner(projects, task_id, principal.id)
}

/// Task creation: access to the target project, or Admin.
pub open spec fn task_create_allowed(
    projects: &ProjectRepository,
    principal: Principal,
    project_id: u128,
) -> bool {
    is_admin(principal) || projects.spec_can_access(project_id, principal.id)
}

/// Team read: lead, member or Admin.
pub open spec fn team_read_allowed(
    repo: &TeamRepository,
    principal: Principal,
    team_id: u128,
) -> bool {
    is_admin(principal) || repo.spec_can_access(team_id, principal.id)
}

/// Team update, delete and member management: lead or Admin.
pub open spec fn team_write_allowed(
    repo: &TeamRepository,
    principal: Principal,
    team_id: u128,
) -> bool {
    is_admin(principal) || repo.spec_is_lead(team_id, principal.id)
}

/// Notification access: the owner alone. The principal's role is not
/// consulted: there is no Admin override for notifications.
pub open spec fn notification_access_allowed(n: Notification, principal: Principal) -> bool {
    n.user_id == principal.id
}

// ---------------------------------------------------------------------
// Projects
// ---------------------------------------------------------------------

/// Administrators see every project; everyone else the accessible
/// ones, each exactly once.
pub fn list_projects(service: &ProjectAppService, principal: Principal) -> (r: Result<
    Vec<Project>,
    DomainError,
>)
    requires
        service.project_repository.wf(),
    ensures
        is_admin(principal) ==> (r matches Ok(v)
            && v@.to_multiset() == service.project_repository.projects@.to_multiset()
            && listed_in_order(v@)),
        !is_admin(principal) ==> (r matches Ok(v)
            && v@.to_multiset() == service.project_repository.projects@.filter(
            |p: Project| p.owner_id == principal.id
                || spec_is_member(service.project_repository.members@, p.id, principal.id),
        ).to_multiset() && listed_in_order(v@)
            && (forall|i: int, j: int| 0 <= i < j < v@.len() ==> v@[i].id != v@[j].id)),
{
    if principal.role == UserRole::Admin {
        service.list_projects()
    } else {
        service.list_accessible_projects(principal.id)
    }
}

pub fn get_project(service: &ProjectAppService, principal: Principal, id: u128) -> (r: Result<
    Project,
    DomainError,
>)
    requires
        service.project_repository.wf(),
    ensures
        !service.project_repository.spec_has_project(id) ==> (r matches Err(e)
            && e matches DomainError::NotFound(m) && m@ == "Project not found"@),
        service.project_repository.spec_has_project(id) && !project_read_allowed(
            &service.project_repository,
            principal,
            id,
        ) ==> (r matches Err(e) && e matches DomainError::Forbidden(m)
            && m@ == "You don't have access to this project"@),
        service.project_repository.spec_has_project(id) && project_read_allowed(
            &service.project_repository,
            principal,
            id,
        ) ==> (r matches Ok(p) && p.id == id
            && service.project_repository.projects@.contains(p)),
{
    let project = match service.get_project(id) {
        Ok(p) => p,
        Err(e) => {
            return Err(e);
        },
    };
    if principal.role != UserRole::Admin {
        let accessible = match service.can_user_access(id, principal.id) {
            Ok(b) => b,
            Err(e) => {
                return Err(e);
            },
        };
        if !accessible {
            return Err(DomainError::Forbidden(
                String::from_str("You don't have access to this project"),
            ));
        }
    }
    Ok(project)
}

/// Any authenticated user may create a project and becomes its owner.
pub fn create_project(
    service: &mut ProjectAppService,
    principal: Principal,
    cmd: CreateProjectCommand,
) -> (r: Result<Project, DomainError>)
    requires
        old(service).project_repository.wf(),
    ensures
        final(service).project_repository.wf(),
        r matches Ok(p) ==> p.name@ == cmd.name@ && p.owner_id == principal.id
            && p.description == cmd.description
            && p.status == (match cmd.status {
            Some(s) => s,
            None => ProjectStatus::Planning,
        })
            && p.priority == (match cmd.priority {
            Some(pr) => pr,
            None => Priority::Medium,
        })
            && p.start_date == cmd.start_date && p.end_date == cmd.end_date
            && p.budget == cmd.budget
            && final(service).project_repository.projects@
                == old(service).project_repository.projects@.push(p),
        r matches Err(e) ==> e is AlreadyExists
            && final(service).project_repository.projects@
                == old(service).project_repository.projects@,
{
    service.create_project(cmd, principal.id)
}

pub fn update_project(
    service: &mut ProjectAppService,
    principal: Principal,
    id: u128,
    cmd: UpdateProjectCommand,
) -> (r: Result<Project, DomainError>)
    requires
        old(service).project_repository.wf(),
    ensures
        final(service).project_repository.wf(),
        final(service).project_repository.members@ == old(service).project_repository.members@,
        !old(service).project_repository.spec_has_project(id) ==> (r matches Err(e)
            && e matches DomainError::NotFound(m) && m@ == "Project not found"@
            && final(service).project_repository.projects@
                == old(service).project_repository.projects@),
        old(service).project_repository.spec_has_project(id) && !project_write_allowed(
            &old(service).project_repository,
            principal,
            id,
        ) ==> (r matches Err(e) && e matches DomainError::Forbidden(m)
            && m@ == "Only project owner can update this project"@
            && final(service).project_repository.projects@
                == old(service).project_repository.projects@),
        old(service).project_repository.spec_has_project(id) && project_write_allowed(
            &old(service).project_repository,
            principal,
            id,
        ) ==> (r matches Ok(p)
            && spec_project_updated(
            old(service).project_repository.projects@[project_idx(
                old(service).project_repository.projects@,
                id,
            )],
            cmd,
            p,
        )
            && final(service).project_repository.projects@
                == old(service).project_repository.projects@.update(
            project_idx(old(service).project_repository.projects@, id),
            p,
        )),
{
    match service.get_project(id) {
        Ok(_) => {},
        Err(e) => {
            return Err(e);
        },
    }
    if principal.role != UserRole::Admin {
        let owner = match service.is_owner(id, principal.id) {
            Ok(b) => b,
            Err(e) => {
                return Err(e);
            },
        };
        if !owner {
            return Err(DomainError::Forbidden(
                String::from_str("Only project owner can update this project"),
            ));
        }
    }
    service.update_project(id, cmd)
}

pub fn delete_project(service: &mut ProjectAppService, principal: Principal, id: u128) -> (r:
    Result<(), DomainError>)
    requires
        old(service).project_repository.wf(),
    ensures
        final(service).project_repository.wf(),
        final(service).project_repository.members@ == old(service).project_repository.members@,
        !old(service).project_repository.spec_has_project(id) ==> (r matches Err(e)
            && e matches DomainError::NotFound(m) && m@ == "Project not found"@
            && final(service).project_repository.projects@
                == old(service).project_repository.projects@),
        old(service).project_repository.spec_has_project(id) && !project_write_allowed(
            &old(service).project_repository,
            principal,
            id,
        ) ==> (r matches Err(e) && e matches DomainError::Forbidden(m)
            && m@ == "Only project owner can delete this project"@
            && final(service).project_repository.projects@
                == old(service).project_repository.projects@),
        old(service).project_repository.spec_has_project(id) && project_write_allowed(
            &old(service).project_repository,
            principal,
            id,
        ) ==> (r is Ok
            && final(service).project_repository.projects@
                == old(service).project_repository.projects@.remove(
            project_idx(old(service).project_repository.projects@, id),
        )),
{
    match service.get_project(id) {
        Ok(_) => {},
        Err(e) => {
            return Err(e);
        },
    }
    if principal.role != UserRole::Admin {
        let owner = match service.is_owner(id, principal.id) {
            Ok(b) => b,
            Err(e) => {
                return Err(e);
            },
        };
        if !owner {
            return Err(DomainError::Forbidden(
                String::from_str("Only project owner can delete this project"),
            ));
        }
    }
    service.delete_project(id)
}

/// Tasks of an accessible project.
pub fn get_project_tasks(
    projects: &ProjectAppService,
    tasks: &TaskAppService,
    principal: Principal,
    id: u128,
) -> (r: Result<Vec<Task>, DomainError>)
    requires
        projects.project_repository.wf(),
    ensures
        !projects.project_repository.spec_has_project(id) ==> (r matches Err(e)
            && e matches DomainError::NotFound(m) && m@ == "Project not found"@),
        projects.project_repository.spec_has_project(id) && !project_read_allowed(
            &projects.project_repository,
            principal,
            id,
        ) ==> (r matches Err(e) && e matches DomainError::Forbidden(m)
            && m@ == "You don't have access to this project"@),
        projects.project_repository.spec_has_project(id) && project_read_allowed(
            &projects.project_repository,
            principal,
            id,
        ) ==> (r matches Ok(v) && v@.to_multiset() == tasks.task_repository.tasks@.filter(
            |t: Task| t.project_id == id,
        ).to_multiset() && listed_in_order(v@)),
{
    match projects.get_project(id) {
        Ok(_) => {},
        Err(e) => {
            return Err(e);
        },
    }
    if principal.role != UserRole::Admin {
        let accessible = match projects.can_user_access(id, principal.id) {
            Ok(b) => b,
            Err(e) => {
                return Err(e);
            },
        };
        if !accessible {
            return Err(DomainError::Forbidden(
                String::from_str("You don't have access to this project"),
            ));
        }
    }
    projects.get_project_tasks(id, &tasks.task_repository)
}

/// Milestones of an accessible project.
pub fn get_project_milestones(
    service: &ProjectAppService,
    principal: Principal,
    id: u128,
) -> (r: Result<Vec<Milestone>, DomainError>)
    requires
        service.project_repository.wf(),
    ensures
        !service.project_repository.spec_has_project(id) ==> (r matches Err(e)
            && e matches DomainError::NotFound(m) && m@ == "Project not found"@),
        service.project_repository.spec_has_project(id) && !project_read_allowed(
            &service.project_repository,
            principal,
            id,
        ) ==> (r matches Err(e) && e matches DomainError::Forbidden(m)
            && m@ == "You don't have access to this project"@),
        service.project_repository.spec_has_project(id) && project_read_allowed(
            &service.project_repository,
            principal,
            id,
        ) ==> (r matches Ok(v) && v@.to_multiset()
            == service.project_repository.milestones@.filter(
            |m: Milestone| m.project_id == id,
        ).to_multiset() && listed_in_order(v@)),
{
    match service.get_project(id) {
        Ok(_) => {},
        Err(e) => {
            return Err(e);
        },
    }
    if principal.role != UserRole::Admin {
        let accessible = match service.can_user_access(id, principal.id) {
            Ok(b) => b,
            Err(e) => {
                return Err(e);
            },
        };
        if !accessible {
            return Err(DomainError::Forbidden(
                String::from_str("You don't have access to this project"),
            ));
        }
    }
    service.get_project_milestones(id)
}

// ---------------------------------------------------------------------
// Tasks
// ---------------------------------------------------------------------

/// Administrators see every task; everyone else the tasks of
/// accessible projects, each exactly once.
pub fn list_tasks(
    tasks: &TaskAppService,
    projects: &ProjectAppService,
    principal: Principal,
) -> (r: Result<Vec<Task>, DomainError>)
    requires
        tasks.task_repository.wf(),
        projects.project_repository.wf(),
    ensures
        is_admin(principal) ==> (r matches Ok(v)
            && v@.to_multiset() == tasks.task_repository.tasks@.to_multiset()
            && listed_in_order(v@)),
        !is_admin(principal) ==> (r matches Ok(v)
            && v@.to_multiset() == tasks.task_repository.tasks@.filter(
            |t: Task| projects.project_repository.spec_can_access(t.project_id, principal.id),
        ).to_multiset() && listed_in_order(v@)
            && (forall|i: int, j: int| 0 <= i < j < v@.len() ==> v@[i].id != v@[j].id)),
{
    if principal.role == UserRole::Admin {
        tasks.list_tasks()
    } else {
        tasks.list_accessible_tasks(&projects.project_repository, principal.id)
    }
}

pub fn get_task(
    tasks: &TaskAppService,
    projects: &ProjectAppService,
    principal: Principal,
    id: u128,
) -> (r: Result<Task, DomainError>)
    requires
        tasks.task_repository.wf(),
        projects.project_repository.wf(),
    ensures
        !tasks.task_repository.spec_has_task(id) ==> (r matches Err(e)
            && e matches DomainError::NotFound(m) && m@ == "Task not found"@),
        tasks.task_repository.spec_has_task(id) && !task_update_allowed(
            &tasks.task_repository,
            &projects.project_repository,
            principal,
            id,
        ) ==> (r matches Err(e) && e matches DomainError::Forbidden(m)
            && m@ == "You don't have access to the task"@),
        tasks.task_repository.spec_has_task(id) && task_update_allowed(
            &tasks.task_repository,
            &projects.project_repository,
            principal,
            id,
        ) ==> (r matches Ok(t) && t.id == id && tasks.task_repository.tasks@.contains(t)),
{
    let task = match tasks.get_task(id) {
        Ok(t) => t,
        Err(e) => {
            return Err(e);
        },
    };
    if principal.role != UserRole::Admin {
        let accessible = match tasks.can_user_access(&projects.project_repository, id, principal.id) {
            Ok(b) => b,
            Err(e) => {
                return Err(e);
            },
        };
        if !accessible {
            return Err(DomainError::Forbidden(
                String::from_str("You don't have access to the task"),
            ));
        }
    }
    Ok(task)
}

/// Creating a task demands access to its target project.
pub fn create_task(
    tasks: &mut TaskAppService,
    projects: &ProjectAppService,
    principal: Principal,
    cmd: CreateTaskCommand,
) -> (r: Result<Task, DomainError>)
    requires
        old(tasks).task_repository.wf(),
        projects.project_repository.wf(),
    ensures
        final(tasks).task_repository.wf(),
        !task_create_allowed(&projects.project_repository, principal, cmd.project_id)
            ==> (r matches Err(e) && e matches DomainError::Forbidden(m)
            && m@ == "You don't have access to this project"@
            && final(tasks).task_repository.tasks@ == old(tasks).task_repository.tasks@),
        task_create_allowed(&projects.project_repository, principal, cmd.project_id)
            ==> ((r matches Ok(t) ==> t.project_id == cmd.project_id
            && t.title@ == cmd.title@ && t.status == TaskStatus::Todo
            && t.priority == (match cmd.priority {
            Some(p) => p,
            None => Priority::Medium,
        })
            && final(tasks).task_repository.tasks@
                == old(tasks).task_repository.tasks@.push(t))
            && (r matches Err(e) ==> e is AlreadyExists
            && final(tasks).task_repository.tasks@ == old(tasks).task_repository.tasks@)),
{
    if principal.role != UserRole::Admin {
        let accessible = match tasks.can_access_project(
            &projects.project_repository,
            cmd.project_id,
            principal.id,
        ) {
            Ok(b) => b,
            Err(e) => {
                return Err(e);
            },
        };
        if !accessible {
            return Err(DomainError::Forbidden(
                String::from_str("You don't have access to this project"),
            ));
        }
    }
    tasks.create_task(cmd)
}

pub fn update_task(
    tasks: &mut TaskAppService,
    projects: &ProjectAppService,
    principal: Principal,
    id: u128,
    cmd: UpdateTaskCommand,
) -> (r: Result<Task, DomainError>)
    requires
        old(tasks).task_repository.wf(),
        projects.project_repository.wf(),
    ensures
        final(tasks).task_repository.wf(),
        !old(tasks).task_repository.spec_has_task(id) ==> (r matches Err(e)
            && e matches DomainError::NotFound(m) && m@ == "Task not found"@
            && final(tasks).task_repository.tasks@ == old(tasks).task_repository.tasks@),
        old(tasks).task_repository.spec_has_task(id) && !task_update_allowed(
            &old(tasks).task_repository,
            &projects.project_repository,
            principal,
            id,
        ) ==> (r matches Err(e) && e matches DomainError::Forbidden(m)
            && m@ == "You don't have access to the task"@
            && final(tasks).task_repository.tasks@ == old(tasks).task_repository.tasks@),
        old(tasks).task_repository.spec_has_task(id) && task_update_allowed(
            &old(tasks).task_repository,
            &projects.project_repository,
            principal,
            id,
        ) ==> (r matches Ok(t)
            && spec_task_updated(
            old(tasks).task_repository.tasks@[task_idx(old(tasks).task_repository.tasks@, id)],
            cmd,
            t,
        )
            && final(tasks).task_repository.tasks@
                == old(tasks).task_repository.tasks@.update(
            task_idx(old(tasks).task_repository.tasks@, id),
            t,
        )),
{
    match tasks.get_task(id) {
        Ok(_) => {},
        Err(e) => {
            return Err(e);
        },
    }
    if principal.role != UserRole::Admin {
        let accessible = match tasks.can_user_access(&projects.project_repository, id, principal.id) {
            Ok(b) => b,
            Err(e) => {
                return Err(e);
            },
        };
        if !accessible {
            return Err(DomainError::Forbidden(
                String::from_str("You don't have access to the task"),
            ));
        }
    }
    tasks.update_task(id, cmd)
}

/// Deleting a task is narrower than updating it: only the parent
/// project's owner or an administrator may, never a mere member.
pub fn delete_task(
    tasks: &mut TaskAppService,
    projects: &ProjectAppService,
    principal: Principal,
    id: u128,
) -> (r: Result<(), DomainError>)
    requires
        old(tasks).task_repository.wf(),
        projects.project_repository.wf(),
    ensures
        final(tasks).task_repository.wf(),
        !old(tasks).task_repository.spec_has_task(id) ==> (r matches Err(e)
            && e matches DomainError::NotFound(m) && m@ == "Task not found"@
            && final(tasks).task_repository.tasks@ == old(tasks).task_repository.tasks@),
        old(tasks).task_repository.spec_has_task(id) && !task_delete_allowed(
            &old(tasks).task_repository,
            &projects.project_repository,
            principal,
            id,
        ) ==> (r matches Err(e) && e matches DomainError::Forbidden(m)
            && m@ == "Only project owner can delete tasks"@
            && final(tasks).task_repository.tasks@ == old(tasks).task_repository.tasks@),
        old(tasks).task_repository.spec_has_task(id) && task_delete_allowed(
            &old(tasks).task_repository,
            &projects.project_repository,
            principal,
            id,
        ) ==> (r is Ok
            && final(tasks).task_repository.tasks@ == old(tasks).task_repository.tasks@.remove(
            task_idx(old(tasks).task_repository.tasks@, id),
        )),
{
    match tasks.get_task(id) {
        Ok(_) => {},
        Err(e) => {
            return Err(e);
        },
    }
    if principal.role != UserRole::Admin {
        let owner = match tasks.is_project_owner(&projects.project_repository, id, principal.id) {
            Ok(b) => b,
            Err(e) => {
                return Err(e);
            },
        };
        if !owner {
            return Err(DomainError::Forbidden(
                String::from_str("Only project owner can delete tasks"),
            ));
        }
    }
    tasks.delete_task(id)
}

// ---------------------------------------------------------------------
// Teams
// ---------------------------------------------------------------------

/// Administrators see every team; everyone else the accessible ones,
/// each exactly once.
pub fn list_teams(service: &TeamAppService, principal: Principal) -> (r: Result<
    Vec<Team>,
    DomainError,
>)
    requires
        service.team_repository.wf(),
    ensures
        is_admin(principal) ==> (r matches Ok(v)
            && v@.to_multiset() == service.team_repository.teams@.to_multiset()
            && listed_in_order(v@)),
        !is_admin(principal) ==> (r matches Ok(v)
            && v@.to_multiset() == service.team_repository.teams@.filter(
            |t: Team| t.lead_id == Some(principal.id)
                || spec_is_team_member(service.team_repository.members@, t.id, principal.id),
        ).to_multiset() && listed_in_order(v@)
            && (forall|i: int, j: int| 0 <= i < j < v@.len() ==> v@[i].id != v@[j].id)),
{
    if principal.role == UserRole::Admin {
        service.list_teams()
    } else {
        service.list_accessible_teams(principal.id)
    }
}

pub fn get_team(service: &TeamAppService, principal: Principal, id: u128) -> (r: Result<
    Team,
    DomainError,
>)
    requires
        service.team_repository.wf(),
    ensures
        !service.team_repository.spec_has_team(id) ==> (r matches Err(e)
            && e matches DomainError::NotFound(m) && m@ == "Team not found"@),
        service.team_repository.spec_has_team(id) && !team_read_allowed(
            &service.team_repository,
            principal,
            id,
        ) ==> (r matches Err(e) && e matches DomainError::Forbidden(m)
            && m@ == "You don't have access to this team"@),
        service.team_repository.spec_has_team(id) && team_read_allowed(
            &service.team_repository,
            principal,
            id,
        ) ==> (r matches Ok(t) && t.id == id && service.team_repository.teams@.contains(t)),
{
    let team = match service.get_team(id) {
        Ok(t) => t,
        Err(e) => {
            return Err(e);
        },
    };
    if principal.role != UserRole::Admin {
        let accessible = match service.can_user_access(id, principal.id) {
            Ok(b) => b,
            Err(e) => {
                return Err(e);
            },
        };
        if !accessible {
            return Err(DomainError::Forbidden(
                String::from_str("You don't have access to this team"),
            ));
        }
    }
    Ok(team)
}

/// Any authenticated user may create a team.
pub fn create_team(service: &mut TeamAppService, principal: Principal, cmd: CreateTeamCommand) -> (r:
    Result<Team, DomainError>)
    requires
        old(service).team_repository.wf(),
    ensures
        final(service).team_repository.wf(),
        final(service).team_repository.members@ == old(service).team_repository.members@,
        r matches Ok(t) ==> t.name@ == cmd.name@ && t.lead_id == cmd.lead_id
            && final(service).team_repository.teams@
                == old(service).team_repository.teams@.push(t),
        r matches Err(e) ==> e is AlreadyExists
            && final(service).team_repository.teams@ == old(service).team_repository.teams@,
{
    service.create_team(cmd)
}

pub fn update_team(
    service: &mut TeamAppService,
    principal: Principal,
    id: u128,
    cmd: UpdateTeamCommand,
) -> (r: Result<Team, DomainError>)
    requires
        old(service).team_repository.wf(),
    ensures
        final(service).team_repository.wf(),
        final(service).team_repository.members@ == old(service).team_repository.members@,
        !old(service).team_repository.spec_has_team(id) ==> (r matches Err(e)
            && e matches DomainError::NotFound(m) && m@ == "Team not found"@
            && final(service).team_repository.teams@ == old(service).team_repository.teams@),
        old(service).team_repository.spec_has_team(id) && !team_write_allowed(
            &old(service).team_repository,
            principal,
            id,
        ) ==> (r matches Err(e) && e matches DomainError::Forbidden(m)
            && m@ == "Only team lead can update this team"@
            && final(service).team_repository.teams@ == old(service).team_repository.teams@),
        old(service).team_repository.spec_has_team(id) && team_write_allowed(
            &old(service).team_repository,
            principal,
            id,
        ) ==> (r matches Ok(t)
            && spec_team_updated(
            old(service).team_repository.teams@[team_idx(
                old(service).team_repository.teams@,
                id,
            )],
            cmd,
            t,
        )
            && final(service).team_repository.teams@
                == old(service).team_repository.teams@.update(
            team_idx(old(service).team_repository.teams@, id),
            t,
        )),
{
    match service.get_team(id) {
        Ok(_) => {},
        Err(e) => {
            return Err(e);
        },
    }
    if principal.role != UserRole::Admin {
        let lead = match service.is_lead(id, principal.id) {
            Ok(b) => b,
            Err(e) => {
                return Err(e);
            },
        };
        if !lead {
            return Err(DomainError::Forbidden(
                String::from_str("Only team lead can update this team"),
            ));
        }
    }
    service.update_team(id, cmd)
}

pub fn delete_team(service: &mut TeamAppService, principal: Principal, id: u128) -> (r: Result<
    (),
    DomainError,
>)
    requires
        old(service).team_repository.wf(),
    ensures
        final(service).team_repository.wf(),
        final(service).team_repository.members@ == old(service).team_repository.members@,
        !old(service).team_repository.spec_has_team(id) ==> (r matches Err(e)
            && e matches DomainError::NotFound(m) && m@ == "Team not found"@
            && final(service).team_repository.teams@ == old(service).team_repository.teams@),
        old(service).team_repository.spec_has_team(id) && !team_write_allowed(
            &old(service).team_repository,
            principal,
            id,
        ) ==> (r matches Err(e) && e matches DomainError::Forbidden(m)
            && m@ == "Only team lead can delete this team"@
            && final(service).team_repository.teams@ == old(service).team_repository.teams@),
        old(service).team_repository.spec_has_team(id) && team_write_allowed(
            &old(service).team_repository,
            principal,
            id,
        ) ==> (r is Ok
            && final(service).team_repository.teams@
                == old(service).team_repository.teams@.remove(
            team_idx(old(service).team_repository.teams@, id),
        )),
{
    match service.get_team(id) {
        Ok(_) => {},
        Err(e) => {
            return Err(e);
        },
    }
    if principal.role != UserRole::Admin {
        let lead = match service.is_lead(id, principal.id) {
            Ok(b) => b,
            Err(e) => {
                return Err(e);
            },
        };
        if !lead {
            return Err(DomainError::Forbidden(
                String::from_str("Only team lead can delete this team"),
            ));
        }
    }
    service.delete_team(id)
}

/// Membership rows of an accessible team.
pub fn get_team_members(service: &TeamAppService, principal: Principal, id: u128) -> (r: Result<
    Vec<TeamMember>,
    DomainError,
>)
    requires
        service.team_repository.wf(),
    ensures
        !service.team_repository.spec_has_team(id) ==> (r matches Err(e)
            && e matches DomainError::NotFound(m) && m@ == "Team not found"@),
        service.team_repository.spec_has_team(id) && !team_read_allowed(
            &service.team_repository,
            principal,
            id,
        ) ==> (r matches Err(e) && e matches DomainError::Forbidden(m)
            && m@ == "You don't have access to this team"@),
        service.team_repository.spec_has_team(id) && team_read_allowed(
            &service.team_repository,
            principal,
            id,
        ) ==> (r matches Ok(v) && v@.to_multiset() == service.team_repository.members@.filter(
            |m: TeamMember| m.team_id == id,
        ).to_multiset() && listed_in_order(v@)),
{
    match service.get_team(id) {
        Ok(_) => {},
        Err(e) => {
            return Err(e);
        },
    }
    if principal.role != UserRole::Admin {
        let accessible = match service.can_user_access(id, principal.id) {
            Ok(b) => b,
            Err(e) => {
                return Err(e);
            },
        };
        if !accessible {
            return Err(DomainError::Forbidden(
                String::from_str("You don't have access to this team"),
            ));
        }
    }
    service.get_team_members(id)
}

/// Only the team's lead or an administrator may add members.
pub fn add_team_member(
    service: &mut TeamAppService,
    principal: Principal,
    team_id: u128,
    cmd: AddTeamMemberCommand,
) -> (r: Result<TeamMember, DomainError>)
    requires
        old(service).team_repository.wf(),
    ensures
        final(service).team_repository.wf(),
        final(service).team_repository.teams@ == old(service).team_repository.teams@,
        !old(service).team_repository.spec_has_team(team_id) ==> (r matches Err(e)
            && e matches DomainError::NotFound(m) && m@ == "Team not found"@
            && final(service).team_repository.members@
                == old(service).team_repository.members@),
        old(service).team_repository.spec_has_team(team_id) && !team_write_allowed(
            &old(service).team_repository,
            principal,
            team_id,
        ) ==> (r matches Err(e) && e matches DomainError::Forbidden(m)
            && m@ == "Only team lead can add members"@
            && final(service).team_repository.members@
                == old(service).team_repository.members@),
        old(service).team_repository.spec_has_team(team_id) && team_write_allowed(
            &old(service).team_repository,
            principal,
            team_id,
        ) && spec_is_team_member(old(service).team_repository.members@, team_id, cmd.user_id)
            ==> (r matches Err(e) && e is AlreadyExists
            && final(service).team_repository.members@
                == old(service).team_repository.members@),
        old(service).team_repository.spec_has_team(team_id) && team_write_allowed(
            &old(service).team_repository,
            principal,
            team_id,
        ) && !spec_is_team_member(old(service).team_repository.members@, team_id, cmd.user_id)
            ==> (r matches Ok(tm) && tm.team_id == team_id && tm.user_id == cmd.user_id
            && final(service).team_repository.members@
                == old(service).team_repository.members@.push(tm)),
{
    match service.get_team(team_id) {
        Ok(_) => {},
        Err(e) => {
            return Err(e);
        },
    }
    if principal.role != UserRole::Admin {
        let lead = match service.is_lead(team_id, principal.id) {
            Ok(b) => b,
            Err(e) => {
                return Err(e);
            },
        };
        if !lead {
            return Err(DomainError::Forbidden(
                String::from_str("Only team lead can add members"),
            ));
        }
    }
    service.add_team_member(team_id, cmd)
}

// ---------------------------------------------------------------------
// Notifications (owner only; no Admin override)
// ---------------------------------------------------------------------

/// The caller's own notifications, and nobody else's: the listing is
/// keyed by the principal's identifier alone.
pub fn list_notifications(service: &NotificationAppService, principal: Principal) -> (r: Result<
    Vec<Notification>,
    DomainError,
>)
    ensures
        r matches Ok(v) && (exists|g: Seq<Notification>| {
            &&& g.to_multiset() == service.notification_repository.notifications@.filter(
                |n: Notification| n.user_id == principal.id,
            ).to_multiset()
            &&& listed_in_order(g)
            &&& v@ == if g.len() <= 100 {
                g
            } else {
                g.subrange(0, 100)
            }
        }),
{
    service.get_user_notifications(principal.id)
}

pub fn get_unread_count(service: &NotificationAppService, principal: Principal) -> (r: Result<
    usize,
    DomainError,
>)
    ensures
        r matches Ok(c) && c == service.notification_repository.notifications@.filter(
            |n: Notification| n.user_id == principal.id && !n.is_read,
        ).len(),
{
    service.get_unread_count(principal.id)
}

/// Marks one of the caller's own notifications read; the caller's role
/// is never consulted.
pub fn mark_as_read(service: &mut NotificationAppService, principal: Principal, id: u128) -> (r:
    Result<(), DomainError>)
    requires
        old(service).notification_repository.wf(),
    ensures
        final(service).notification_repository.wf(),
        !old(service).notification_repository.spec_has_notification(id) ==> (r matches Err(e)
            && e matches DomainError::NotFound(m) && m@ == "Notification not found"@
            && final(service).notification_repository.notifications@
                == old(service).notification_repository.notifications@),
        old(service).notification_repository.spec_has_notification(id)
            && !notification_access_allowed(
            old(service).notification_repository.notifications@[notification_idx(
                old(service).notification_repository.notifications@,
                id,
            )],
            principal,
        ) ==> (r matches Err(e) && e matches DomainError::Forbidden(m)
            && m@ == "Not authorized to modify this notification"@
            && final(service).notification_repository.notifications@
                == old(service).notification_repository.notifications@),
        old(service).notification_repository.spec_has_notification(id)
            && notification_access_allowed(
            old(service).notification_repository.notifications@[notification_idx(
                old(service).notification_repository.notifications@,
                id,
            )],
            principal,
        ) ==> (r is Ok
            && final(service).notification_repository.notifications@
                == old(service).notification_repository.notifications@.update(
            notification_idx(old(service).notification_repository.notifications@, id),
            spec_marked_read(
                old(service).notification_repository.notifications@[notification_idx(
                    old(service).notification_repository.notifications@,
                    id,
                )],
            ),
        )),
{
    service.mark_as_read(id, principal.id)
}

pub fn mark_all_as_read(service: &mut NotificationAppService, principal: Principal) -> (r: Result<
    (),
    DomainError,
>)
    requires
        old(service).notification_repository.wf(),
    ensures
        final(service).notification_repository.wf(),
        r is Ok,
        final(service).notification_repository.notifications@.len()
            == old(service).notification_repository.notifications@.len(),
        forall|i: int| 0 <= i < old(service).notification_repository.notifications@.len()
            ==> #[trigger] final(service).notification_repository.notifications@[i] == (
            if old(service).notification_repository.notifications@[i].user_id == principal.id {
                spec_marked_read(old(service).notification_repository.notifications@[i])
            } else {
                old(service).notification_repository.notifications@[i]
            }),
{
    service.mark_all_as_read(principal.id)
}

/// Deletes one of the caller's own notifications; the caller's role is
/// never consulted.
pub fn delete_notification(
    service: &mut NotificationAppService,
    principal: Principal,
    id: u128,
) -> (r: Result<(), DomainError>)
    requires
        old(service).notification_repository.wf(),
    ensures
        final(service).notification_repository.wf(),
        !old(service).notification_repository.spec_has_notification(id) ==> (r matches Err(e)
            && e matches DomainError::NotFound(m) && m@ == "Notification not found"@
            && final(service).notification_repository.notifications@
                == old(service).notification_repository.notifications@),
        old(service).notification_repository.spec_has_notification(id)
            && !notification_access_allowed(
            old(service).notification_repository.notifications@[notification_idx(
                old(service).notification_repository.notifications@,
                id,
            )],
            principal,
        ) ==> (r matches Err(e) && e matches DomainError::Forbidden(m)
            && m@ == "Not authorized to delete this notification"@
            && final(service).notification_repository.notifications@
                == old(service).notification_repository.notifications@),
        old(service).notification_repository.spec_has_notification(id)
            && notification_access_allowed(
            old(service).notification_repository.notifications@[notification_idx(
                old(service).notification_repository.notifications@,
                id,
            )],
            principal,
        ) ==> (r is Ok
            && final(service).notification_repository.notifications@
                == old(service).notification_repository.notifications@.remove(
            notification_idx(old(service).notification_repository.notifications@, id),
        )),
{
    service.delete_notification(id, principal.id)
}

// ---------------------------------------------------------------------
// Tags (unrestricted among authenticated users)
// ---------------------------------------------------------------------

pub fn list_tags(service: &TagAppService) -> (r: Result<Vec<Tag>, DomainError>)
    ensures
        r matches Ok(v) && v@.to_multiset() == service.tag_repository.tags@.to_multiset(),
        r matches Ok(v) ==> listed_in_order(v@),
{
    service.list_tags()
}

pub fn get_tag(service: &TagAppService, id: u128) -> (r: Result<Tag, DomainError>)
    ensures
        r is Ok <==> service.tag_repository.spec_has_tag(id),
        r matches Ok(t) ==> t.id == id && service.tag_repository.tags@.contains(t),
        r matches Err(e) ==> (e matches DomainError::NotFound(m) && m@ == "Tag not found"@),
{
    service.get_tag(id)
}

pub fn create_tag(service: &mut TagAppService, cmd: CreateTagCommand) -> (r: Result<
    Tag,
    DomainError,
>)
    requires
        old(service).tag_repository.wf(),
    ensures
        final(service).tag_repository.wf(),
        tag_name_exists(old(service).tag_repository.tags@, cmd.name@) ==> (r matches Err(e)
            && e matches DomainError::ValidationError(m)
            && m@ == "Tag with this name already exists"@
            && final(service).tag_repository.tags@ == old(service).tag_repository.tags@),
        !tag_name_exists(old(service).tag_repository.tags@, cmd.name@) ==> ((r matches Ok(t)
            ==> t.name@ == cmd.name@
            && final(service).tag_repository.tags@
                == old(service).tag_repository.tags@.push(t))
            && (r matches Err(e) ==> e is AlreadyExists
            && final(service).tag_repository.tags@ == old(service).tag_repository.tags@)),
{
    service.create_tag(cmd)
}

pub fn update_tag(service: &mut TagAppService, id: u128, cmd: UpdateTagCommand) -> (r: Result<
    Tag,
    DomainError,
>)
    requires
        old(service).tag_repository.wf(),
    ensures
        final(service).tag_repository.wf(),
        !old(service).tag_repository.spec_has_tag(id) ==> (r matches Err(e)
            && e matches DomainError::NotFound(m) && m@ == "Tag not found"@
            && final(service).tag_repository.tags@ == old(service).tag_repository.tags@),
        old(service).tag_repository.spec_has_tag(id) && (cmd.name matches Some(n)
            && (spec_find_by_name(old(service).tag_repository.tags@, n@) matches Some(t)
            && t.id != id)) ==> (r matches Err(e)
            && e matches DomainError::ValidationError(m)
            && m@ == "Tag with this name already exists"@
            && final(service).tag_repository.tags@ == old(service).tag_repository.tags@),
        old(service).tag_repository.spec_has_tag(id) && !(cmd.name matches Some(n)
            && (spec_find_by_name(old(service).tag_repository.tags@, n@) matches Some(t)
            && t.id != id)) ==> (r matches Ok(t)
            && spec_tag_updated(
            old(service).tag_repository.tags@[tag_idx(old(service).tag_repository.tags@, id)],
            cmd,
            t,
        )
            && final(service).tag_repository.tags@
                == old(service).tag_repository.tags@.update(
            tag_idx(old(service).tag_repository.tags@, id),
            t,
        )),
{
    service.update_tag(id, cmd)
}

pub fn delete_tag(service: &mut TagAppService, id: u128) -> (r: Result<(), DomainError>)
    requires
        old(service).tag_repository.wf(),
    ensures
        final(service).tag_repository.wf(),
        !old(service).tag_repository.spec_has_tag(id) ==> (r matches Err(e)
            && e matches DomainError::NotFound(m) && m@ == "Tag not found"@
            && final(service).tag_repository.tags@ == old(service).tag_repository.tags@),
        old(service).tag_repository.spec_has_tag(id) ==> (r is Ok
            && final(service).tag_repository.tags@ == old(service).tag_repository.tags@.remove(
            tag_idx(old(service).tag_repository.tags@, id),
        )),
{
    service.delete_tag(id)
}

pub fn get_task_tags(service: &TagAppService, task_id: u128) -> (r: Result<Vec<Tag>, DomainError>)
    ensures
        r matches Ok(v) && v@.to_multiset() == service.tag_repository.tags@.filter(
            |t: Tag| spec_task_has_tag(service.tag_repository.task_tags@, task_id, t.id),
        ).to_multiset(),
        r matches Ok(v) ==> listed_in_order(v@),
{
    service.get_task_tags(task_id)
}

pub fn set_task_tags(service: &mut TagAppService, task_id: u128, tag_ids: Vec<u128>) -> (r: Result<
    Vec<Tag>,
    DomainError,
>)
    ensures
        final(service).tag_repository.tags@ == old(service).tag_repository.tags@,
        (exists|k: int| 0 <= k < tag_ids@.len()
            && !old(service).tag_repository.spec_has_tag(tag_ids@[k])) ==> (r matches Err(e)
            && e is NotFound
            && final(service).tag_repository.task_tags@
                == old(service).tag_repository.task_tags@),
        (forall|k: int| 0 <= k < tag_ids@.len()
            ==> old(service).tag_repository.spec_has_tag(#[trigger] tag_ids@[k]))
            ==> (r matches Ok(v)
            && spec_set_task_tags(
            old(service).tag_repository.task_tags@,
            final(service).tag_repository.task_tags@,
            task_id,
            tag_ids@,
        )
            && v@.to_multiset() == final(service).tag_repository.tags@.filter(
            |t: Tag| spec_task_has_tag(final(service).tag_repository.task_tags@, task_id, t.id),
        ).to_multiset() && listed_in_order(v@)),
{
    service.set_task_tags(task_id, tag_ids)
}

pub fn add_tag_to_task(service: &mut TagAppService, task_id: u128, tag_id: u128) -> (r: Result<
    TaskTag,
    DomainError,
>)
    ensures
        final(service).tag_repository.tags@ == old(service).tag_repository.tags@,
        !old(service).tag_repository.spec_has_tag(tag_id) ==> (r matches Err(e)
            && e matches DomainError::NotFound(m) && m@ == "Tag not found"@
            && final(service).tag_repository.task_tags@
                == old(service).tag_repository.task_tags@),
        old(service).tag_repository.spec_has_tag(tag_id) && spec_task_has_tag(
            old(service).tag_repository.task_tags@,
            task_id,
            tag_id,
        ) ==> (r matches Err(e) && e is NotFound
            && final(service).tag_repository.task_tags@
                == old(service).tag_repository.task_tags@),
        old(service).tag_repository.spec_has_tag(tag_id) && !spec_task_has_tag(
            old(service).tag_repository.task_tags@,
            task_id,
            tag_id,
        ) ==> (r matches Ok(tt) && tt.task_id == task_id && tt.tag_id == tag_id
            && final(service).tag_repository.task_tags@
                == old(service).tag_repository.task_tags@.push(tt)),
{
    service.add_tag_to_task(task_id, tag_id)
}

pub fn remove_tag_from_task(service: &mut TagAppService, task_id: u128, tag_id: u128) -> (r:
    Result<(), DomainError>)
    ensures
        final(service).tag_repository.tags@ == old(service).tag_repository.tags@,
        final(service).tag_repository.task_tags@ == old(service).tag_repository.task_tags@.filter(
            |tt: TaskTag| !(tt.task_id == task_id && tt.tag_id == tag_id),
        ),
        r is Ok,
{
    service.remove_tag_from_task(task_id, tag_id)
}

// ---------------------------------------------------------------------
// Time logs
// ---------------------------------------------------------------------

/// Optional date bounds of a time-log listing.
#[derive(Debug)]
pub struct ListTimeLogsQuery {
    pub start_date: Option<i64>,
    pub end_date: Option<i64>,
}

/// Body of a time-log creation request; the booking user is the
/// authenticated caller, never a field of the body.
#[derive(Debug)]
pub struct CreateTimeLogRequest {
    pub task_id: u128,
    pub hours: i64,
    pub date: i64,
    pub description: Option<String>,
}

/// Body of a time-log update request; `None` leaves a field unchanged.
#[derive(Debug)]
pub struct UpdateTimeLogRequest {
    pub hours: Option<i64>,
    pub date: Option<i64>,
    pub description: Option<String>,
}

/// The caller's own time logs, optionally bounded by dates, newest
/// date first.
pub fn list_my_time_logs(
    service: &TimeLogAppService,
    principal: Principal,
    params: ListTimeLogsQuery,
) -> (r: Result<Vec<TimeLog>, DomainError>)
    ensures
        r matches Ok(v) && v@.to_multiset() == service.time_log_repository.time_logs@.filter(
            |l: TimeLog| spec_in_range(l, principal.id, params.start_date, params.end_date),
        ).to_multiset(),
        r matches Ok(v) ==> listed_in_order(v@),
{
    service.get_user_time_logs(principal.id, params.start_date, params.end_date)
}

pub fn get_time_log(service: &TimeLogAppService, id: u128) -> (r: Result<TimeLog, DomainError>)
    ensures
        r is Ok <==> service.time_log_repository.spec_has_time_log(id),
        r matches Ok(l) ==> l.id == id && service.time_log_repository.time_logs@.contains(l),
        r matches Err(e) ==> e is NotFound,
{
    match service.get_time_log(id) {
        Ok(Some(l)) => Ok(l),
        Ok(None) => Err(DomainError::NotFound(String::from_str("Time log not found"))),
        Err(e) => Err(e),
    }
}

pub fn list_task_time_logs(service: &TimeLogAppService, task_id: u128) -> (r: Result<
    Vec<TimeLog>,
    DomainError,
>)
    ensures
        r matches Ok(v) && v@.to_multiset() == service.time_log_repository.time_logs@.filter(
            |l: TimeLog| l.task_id == task_id,
        ).to_multiset(),
        r matches Ok(v) ==> listed_in_order(v@),
{
    service.get_task_time_logs(task_id)
}

pub fn list_user_time_logs(
    service: &TimeLogAppService,
    user_id: u128,
    params: ListTimeLogsQuery,
) -> (r: Result<Vec<TimeLog>, DomainError>)
    ensures
        r matches Ok(v) && v@.to_multiset() == service.time_log_repository.time_logs@.filter(
            |l: TimeLog| spec_in_range(l, user_id, params.start_date, params.end_date),
        ).to_multiset(),
        r matches Ok(v) ==> listed_in_order(v@),
{
    service.get_user_time_logs(user_id, params.start_date, params.end_date)
}

/// Books hours for the calling user.
pub fn create_time_log(
    service: &mut TimeLogAppService,
    principal: Principal,
    payload: CreateTimeLogRequest,
) -> (r: Result<TimeLog, DomainError>)
    requires
        old(service).time_log_repository.wf(),
    ensures
        final(service).time_log_repository.wf(),
        r matches Ok(l) ==> l.task_id == payload.task_id && l.user_id == principal.id
            && l.hours == payload.hours && l.date == payload.date
            && final(service).time_log_repository.time_logs@
                == old(service).time_log_repository.time_logs@.push(l),
        r matches Err(e) ==> e is AlreadyExists
            && final(service).time_log_repository.time_logs@
                == old(service).time_log_repository.time_logs@,
{
    let dto = CreateTimeLogDto {
        task_id: payload.task_id,
        user_id: principal.id,
        hours: payload.hours,
        date: payload.date,
        description: payload.description,
    };
    service.create_time_log(dto)
}

pub fn update_time_log(
    service: &mut TimeLogAppService,
    id: u128,
    payload: UpdateTimeLogRequest,
) -> (r: Result<TimeLog, DomainError>)
    requires
        old(service).time_log_repository.wf(),
    ensures
        final(service).time_log_repository.wf(),
        !old(service).time_log_repository.spec_has_time_log(id) ==> (r matches Err(e)
            && e is NotFound
            && final(service).time_log_repository.time_logs@
                == old(service).time_log_repository.time_logs@),
        old(service).time_log_repository.spec_has_time_log(id) ==> (r matches Ok(l)
            && spec_time_log_updated(
            old(service).time_log_repository.time_logs@[time_log_idx(
                old(service).time_log_repository.time_logs@,
                id,
            )],
            (UpdateTimeLogDto {
                hours: payload.hours,
                date: payload.date,
                description: payload.description,
            }),
            l,
        )
            && final(service).time_log_repository.time_logs@
                == old(service).time_log_repository.time_logs@.update(
            time_log_idx(old(service).time_log_repository.time_logs@, id),
            l,
        )),
{
    let dto = UpdateTimeLogDto {
        hours: payload.hours,
        date: payload.date,
        description: payload.description,
    };
    service.update_time_log(id, dto)
}

pub fn delete_time_log(service: &mut TimeLogAppService, id: u128) -> (r: Result<(), DomainError>)
    requires
        old(service).time_log_repository.wf(),
    ensures
        final(service).time_log_repository.wf(),
        !old(service).time_log_repository.spec_has_time_log(id) ==> (r matches Err(e)
            && e is NotFound
            && final(service).time_log_repository.time_logs@
                == old(service).time_log_repository.time_logs@),
        old(service).time_log_repository.spec_has_time_log(id) ==> (r is Ok
            && final(service).time_log_repository.time_logs@
                == old(service).time_log_repository.time_logs@.remove(
            time_log_idx(old(service).time_log_repository.time_logs@, id),
        )),
{
    service.delete_time_log(id)
}

// ---------------------------------------------------------------------
// Activities
// ---------------------------------------------------------------------

/// Filters of the audit-trail listing.
#[derive(Debug)]
pub struct ListActivitiesQuery {
    pub limit: Option<i64>,
    pub offset: Option<i64>,
    pub project_id: Option<u128>,
    pub user_id: Option<u128>,
}

/// The audit-trail listing: filtered by project when a project is
/// given, else by user when a user is given, else paged over all
/// records. Read-only, open to any authenticated user.
pub fn list_activities(
    service: &ActivityAppService,
    users: &Vec<User>,
    projects: &ProjectRepository,
    query: ListActivitiesQuery,
) -> (r: Result<Vec<ActivityLogWithDetails>, DomainError>)
    requires
        spec_users_unique(users@),
        projects.wf(),
    ensures
        query.project_id matches Some(pid) ==> (r matches Ok(v)
            && (exists|g: Seq<ActivityLog>| {
            &&& g.to_multiset() == service.activity_repository.activity_logs@.filter(
                |l: ActivityLog| l.project_id == Some(pid),
            ).to_multiset()
            &&& listed_in_order(g)
            &&& ({
                let cnt = if ActivityAppService::spec_effective_limit(query.limit) <= g.len() {
                    ActivityAppService::spec_effective_limit(query.limit)
                } else {
                    g.len() as int
                };
                &&& v@.len() == cnt
                &&& forall|k: int| 0 <= k < cnt ==> #[trigger] v@[k] == spec_with_details(
                    g[k],
                    users@,
                    projects.projects@,
                )
            })
        })),
        query.project_id is None && query.user_id is Some ==> (r matches Ok(v)
            && (exists|g: Seq<ActivityLog>| {
            &&& g.to_multiset() == service.activity_repository.activity_logs@.filter(
                |l: ActivityLog| l.user_id == Some(query.user_id->Some_0),
            ).to_multiset()
            &&& listed_in_order(g)
            &&& ({
                let cnt = if ActivityAppService::spec_effective_limit(query.limit) <= g.len() {
                    ActivityAppService::spec_effective_limit(query.limit)
                } else {
                    g.len() as int
                };
                &&& v@.len() == cnt
                &&& forall|k: int| 0 <= k < cnt ==> #[trigger] v@[k] == spec_with_details(
                    g[k],
                    users@,
                    projects.projects@,
                )
            })
        })),
        query.project_id is None && query.user_id is None ==> (r matches Ok(v)
            && (exists|g: Seq<ActivityLog>| {
            &&& g.to_multiset() == service.activity_repository.activity_logs@.to_multiset()
            &&& listed_in_order(g)
            &&& ({
                let total = g.len() as int;
                let first = if ActivityAppService::spec_effective_offset(query.offset) <= total {
                    ActivityAppService::spec_effective_offset(query.offset)
                } else {
                    total
                };
                let cnt = if ActivityAppService::spec_effective_limit(query.limit) <= total
                    - first {
                    ActivityAppService::spec_effective_limit(query.limit)
                } else {
                    total - first
                };
                &&& v@.len() == cnt
                &&& forall|k: int| 0 <= k < cnt ==> #[trigger] v@[k] == spec_with_details(
                    g[first + k],
                    users@,
                    projects.projects@,
                )
            })
        })),
{
    match query.project_id {
        Some(pid) => service.get_activities_by_project(users, projects, pid, query.limit),
        None => match query.user_id {
            Some(uid) => service.get_activities_by_user(users, projects, uid, query.limit),
            None => service.list_activities(users, projects, query.limit, query.offset),
        },
    }
}

// ---------------------------------------------------------------------
// Attachments
// ---------------------------------------------------------------------

pub fn get_task_attachments(service: &AttachmentAppService, task_id: u128) -> (r: Result<
    Vec<Attachment>,
    DomainError,
>)
    ensures
        r matches Ok(v) && v@.to_multiset() == service.attachment_repository.attachments@.filter(
            |a: Attachment| a.task_id == task_id,
        ).to_multiset(),
        r matches Ok(v) ==> listed_in_order(v@),
{
    service.get_task_attachments(task_id)
}

/// Validates and records an upload by the calling user; writing the
/// payload to disk is I/O around this flow.
pub fn upload_attachment(
    service: &mut AttachmentAppService,
    principal: Principal,
    task_id: u128,
    original_filename: String,
    content_type: String,
    data: &Vec<u8>,
) -> (r: Result<Attachment, DomainError>)
    requires
        old(service).attachment_repository.wf(),
    ensures
        final(service).attachment_repository.wf(),
        data@.len() > crate::attachment::MAX_FILE_SIZE ==> (r matches Err(e)
            && e matches DomainError::ValidationError(m)
            && m@ == "File size exceeds maximum allowed size of 10 MB"@
            && final(service).attachment_repository.attachments@
                == old(service).attachment_repository.attachments@),
        data@.len() <= crate::attachment::MAX_FILE_SIZE
            && !crate::attachment::spec_allowed_extension(
            crate::text::lower_of(crate::text::spec_extension_of(original_filename@)),
        ) ==> (r matches Err(e) && e is ValidationError
            && final(service).attachment_repository.attachments@
                == old(service).attachment_repository.attachments@),
        crate::attachment::spec_upload_accepted(original_filename@, data@.len() as int)
            ==> ((r matches Ok(a) ==> a.task_id == task_id && a.uploaded_by == principal.id
            && a.size_bytes == data@.len()
            && final(service).attachment_repository.attachments@
                == old(service).attachment_repository.attachments@.push(a))
            && (r matches Err(e) ==> e is AlreadyExists
            && final(service).attachment_repository.attachments@
                == old(service).attachment_repository.attachments@)),
{
    service.upload_attachment(task_id, principal.id, original_filename, content_type, data)
}

pub fn delete_attachment(service: &mut AttachmentAppService, id: u128) -> (r: Result<
    (),
    DomainError,
>)
    requires
        old(service).attachment_repository.wf(),
    ensures
        final(service).attachment_repository.wf(),
        !old(service).attachment_repository.spec_has_attachment(id) ==> (r matches Err(e)
            && e matches DomainError::NotFound(m) && m@ == "Attachment not found"@
            && final(service).attachment_repository.attachments@
                == old(service).attachment_repository.attachments@),
        old(service).attachment_repository.spec_has_attachment(id) ==> (r is Ok
            && final(service).attachment_repository.attachments@
                == old(service).attachment_repository.attachments@.remove(
            crate::attachment::attachment_idx(
                old(service).attachment_repository.attachments@,
                id,
            ),
        )),
{
    service.delete_attachment(id)
}

} // verus!
