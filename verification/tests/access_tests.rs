//! Access-control scenarios: owner/member/admin rules for projects,
//! transitive task access, the delete-vs-update asymmetry, the absent
//! Admin override on notifications, and deduplicated listings.

use pmo::api;
use pmo::api::Principal;
use pmo::commands::{CreateProjectCommand, CreateTaskCommand, UpdateTaskCommand};
use pmo::enums::UserRole;
use pmo::error::DomainError;
use pmo::notification::{
    NotificationAppService, NotificationRepository, NotificationType,
};
use pmo::project::{ProjectAppService, ProjectRepository};
use pmo::task::{TaskAppService, TaskRepository};
use pmo::team::{TeamAppService, TeamRepository};
use pmo::commands::CreateTeamCommand;

fn member(id: u128) -> Principal {
    Principal { id, role: UserRole::Member }
}

fn admin(id: u128) -> Principal {
    Principal { id, role: UserRole::Admin }
}

fn new_project_cmd(name: &str) -> CreateProjectCommand {
    CreateProjectCommand {
        name: name.to_string(),
        description: None,
        status: None,
        priority: None,
        start_date: None,
        end_date: None,
        budget: None,
    }
}

fn new_task_cmd(project_id: u128, title: &str) -> CreateTaskCommand {
    CreateTaskCommand {
        project_id,
        title: title.to_string(),
        description: None,
        priority: None,
        assignee_id: None,
        due_date: None,
        estimated_hours: None,
    }
}

/// Project access is exactly: owner, or member, or Admin.
#[test]
fn project_access_owner_member_admin() {
    let mut service = ProjectAppService::new(ProjectRepository::new());
    let alice = member(1);
    let bob = member(2);
    let carol = member(3);

    let project = api::create_project(&mut service, alice, new_project_cmd("Rollout")).unwrap();

    assert!(service.can_user_access(project.id, alice.id).unwrap());
    assert!(!service.can_user_access(project.id, bob.id).unwrap());

    service.add_member(project.id, bob.id).unwrap();
    assert!(service.can_user_access(project.id, bob.id).unwrap());
    assert!(!service.can_user_access(project.id, carol.id).unwrap());

    // Admin bypasses the predicate at the request layer.
    assert!(api::get_project(&service, admin(99), project.id).is_ok());
}

/// Task access equals access to the parent project: no task-level ACL.
#[test]
fn task_access_follows_parent_project() {
    let mut projects = ProjectAppService::new(ProjectRepository::new());
    let mut tasks = TaskAppService::new(TaskRepository::new());
    let alice = member(1);
    let bob = member(2);

    let project = api::create_project(&mut projects, alice, new_project_cmd("Rollout")).unwrap();
    let task = api::create_task(&mut tasks, &projects, alice, new_task_cmd(project.id, "Ship"))
        .unwrap();

    let task_access_bob = tasks
        .can_user_access(&projects.project_repository, task.id, bob.id)
        .unwrap();
    let project_access_bob = projects.can_user_access(project.id, bob.id).unwrap();
    assert_eq!(task_access_bob, project_access_bob);
    assert!(!task_access_bob);

    projects.add_member(project.id, bob.id).unwrap();
    let task_access_bob = tasks
        .can_user_access(&projects.project_repository, task.id, bob.id)
        .unwrap();
    let project_access_bob = projects.can_user_access(project.id, bob.id).unwrap();
    assert_eq!(task_access_bob, project_access_bob);
    assert!(task_access_bob);
}

/// A project member may update a task but never delete it; the owner
/// and an Admin may delete.
#[test]
fn task_delete_stricter_than_update() {
    let mut projects = ProjectAppService::new(ProjectRepository::new());
    let mut tasks = TaskAppService::new(TaskRepository::new());
    let alice = member(1);
    let bob = member(2);

    let project = api::create_project(&mut projects, alice, new_project_cmd("Rollout")).unwrap();
    projects.add_member(project.id, bob.id).unwrap();
    let task = api::create_task(&mut tasks, &projects, alice, new_task_cmd(project.id, "Ship"))
        .unwrap();

    // The member can update the very task...
    let update = UpdateTaskCommand {
        title: Some("Ship it".to_string()),
        description: None,
        status: None,
        priority: None,
        assignee_id: None,
        due_date: None,
        estimated_hours: None,
        actual_hours: None,
    };
    let updated = api::update_task(&mut tasks, &projects, bob, task.id, update).unwrap();
    assert_eq!(updated.title, "Ship it");

    // ...but may not delete it.
    let denied = api::delete_task(&mut tasks, &projects, bob, task.id).unwrap_err();
    assert!(matches!(denied, DomainError::Forbidden(_)));
    assert_eq!(denied.status_code(), 403);
    assert_eq!(denied.message(), "Only project owner can delete tasks");

    // The owner may.
    api::delete_task(&mut tasks, &projects, alice, task.id).unwrap();
    assert!(tasks.get_task(task.id).is_err());
}

/// An administrator may delete any task.
#[test]
fn admin_can_delete_any_task() {
    let mut projects = ProjectAppService::new(ProjectRepository::new());
    let mut tasks = TaskAppService::new(TaskRepository::new());
    let alice = member(1);

    let project = api::create_project(&mut projects, alice, new_project_cmd("Rollout")).unwrap();
    let task = api::create_task(&mut tasks, &projects, alice, new_task_cmd(project.id, "Ship"))
        .unwrap();

    api::delete_task(&mut tasks, &projects, admin(99), task.id).unwrap();
}

/// Notifications have no Admin override: an administrator is denied on
/// another user's notification for read-modify and delete alike.
#[test]
fn notification_denies_admin_on_foreign_inbox() {
    let mut service = NotificationAppService::new(NotificationRepository::new());
    let owner = member(1);
    let intruder = admin(99);

    let n = service
        .create_notification(
            owner.id,
            NotificationType::TaskAssigned,
            "Assigned".to_string(),
            "You were assigned a task".to_string(),
            None,
        )
        .unwrap();

    let denied = api::mark_as_read(&mut service, intruder, n.id).unwrap_err();
    assert!(matches!(denied, DomainError::Forbidden(_)));
    assert_eq!(denied.status_code(), 403);

    let denied = api::delete_notification(&mut service, intruder, n.id).unwrap_err();
    assert!(matches!(denied, DomainError::Forbidden(_)));

    // The owner, with no special role, succeeds.
    api::mark_as_read(&mut service, owner, n.id).unwrap();
    let unread = api::get_unread_count(&service, owner).unwrap();
    assert_eq!(unread, 0);
    api::delete_notification(&mut service, owner, n.id).unwrap();
    assert_eq!(api::list_notifications(&service, owner).unwrap().len(), 0);
}

/// An accessible-projects listing holds each project once, even when
/// the caller is both its owner and a listed member.
#[test]
fn accessible_listing_has_no_duplicates() {
    let mut service = ProjectAppService::new(ProjectRepository::new());
    let alice = member(1);

    let project = api::create_project(&mut service, alice, new_project_cmd("Rollout")).unwrap();
    // Alice is now owner AND member of her own project.
    service.add_member(project.id, alice.id).unwrap();

    let listed = api::list_projects(&service, alice).unwrap();
    assert_eq!(listed.len(), 1);
    assert_eq!(listed[0].id, project.id);
}

/// The accessible-teams listing behaves the same for lead plus member.
#[test]
fn accessible_teams_no_duplicates() {
    let mut service = TeamAppService::new(TeamRepository::new());
    let lead = member(5);

    let team = api::create_team(
        &mut service,
        lead,
        CreateTeamCommand {
            name: "Platform".to_string(),
            description: None,
            lead_id: Some(lead.id),
        },
    )
    .unwrap();
    api::add_team_member(
        &mut service,
        lead,
        team.id,
        pmo::commands::AddTeamMemberCommand { user_id: lead.id, role: None },
    )
    .unwrap();

    let listed = api::list_teams(&service, lead).unwrap();
    assert_eq!(listed.len(), 1);
    assert_eq!(listed[0].id, team.id);
}

/// End-to-end: A owns a project; B, not a member, is turned away with
/// 403; after A adds B as a member, B reads the project body.
#[test]
fn project_membership_end_to_end() {
    let mut service = ProjectAppService::new(ProjectRepository::new());
    let user_a = member(10);
    let user_b = member(11);

    let project = api::create_project(&mut service, user_a, new_project_cmd("Atlas")).unwrap();
    assert_eq!(project.owner_id, user_a.id);

    let denied = api::get_project(&service, user_b, project.id).unwrap_err();
    assert!(matches!(denied, DomainError::Forbidden(_)));
    assert_eq!(denied.status_code(), 403);

    service.add_member(project.id, user_b.id).unwrap();

    let body = api::get_project(&service, user_b, project.id).unwrap();
    assert_eq!(body.id, project.id);
    assert_eq!(body.name, "Atlas");
    assert_eq!(body.owner_id, user_a.id);
}

/// A duplicate membership row is rejected the way the storage unique
/// key rejects it.
#[test]
fn duplicate_membership_rejected() {
    let mut service = ProjectAppService::new(ProjectRepository::new());
    let alice = member(1);
    let bob = member(2);

    let project = api::create_project(&mut service, alice, new_project_cmd("Rollout")).unwrap();
    service.add_member(project.id, bob.id).unwrap();

    let err = service.add_member(project.id, bob.id).unwrap_err();
    assert!(matches!(err, DomainError::AlreadyExists(_)));
    assert_eq!(err.status_code(), 409);
}

/// A missing resource is reported as not found, an existing but
/// inaccessible one as forbidden.
#[test]
fn missing_vs_forbidden() {
    let mut service = ProjectAppService::new(ProjectRepository::new());
    let alice = member(1);
    let bob = member(2);

    let missing = api::get_project(&service, alice, 424242).unwrap_err();
    assert!(matches!(missing, DomainError::NotFound(_)));
    assert_eq!(missing.status_code(), 404);

    let project = api::create_project(&mut service, alice, new_project_cmd("Rollout")).unwrap();
    let forbidden = api::get_project(&service, bob, project.id).unwrap_err();
    assert!(matches!(forbidden, DomainError::Forbidden(_)));
}

/// Team lead authority comes from `lead_id`, not from the membership
/// role field.
#[test]
fn team_lead_from_lead_id_only() {
    let mut service = TeamAppService::new(TeamRepository::new());
    let lead = member(1);
    let other = member(2);

    let team = api::create_team(
        &mut service,
        lead,
        CreateTeamCommand {
            name: "Platform".to_string(),
            description: None,
            lead_id: Some(lead.id),
        },
    )
    .unwrap();

    // A member whose row carries the Lead role still has no lead
    // authority: only Team.lead_id counts.
    api::add_team_member(
        &mut service,
        lead,
        team.id,
        pmo::commands::AddTeamMemberCommand {
            user_id: other.id,
            role: Some(pmo::enums::TeamMemberRole::Lead),
        },
    )
    .unwrap();

    let denied = api::delete_team(
        &mut service,
        other,
        team.id,
    )
    .unwrap_err();
    assert!(matches!(denied, DomainError::Forbidden(_)));

    assert!(service.is_lead(team.id, lead.id).unwrap());
    assert!(!service.is_lead(team.id, other.id).unwrap());
}
