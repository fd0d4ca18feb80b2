//! Service-level behavior: partial-update semantics, tag-link
//! replacement, activity paging defaults and error display text.

use pmo::activity::{ActivityAppService, ActivityLog, ActivityLogRepository};
use pmo::api;
use pmo::api::Principal;
use pmo::commands::{
    CreateProjectCommand, CreateTagCommand, CreateTaskCommand, UpdateProjectCommand,
    UpdateTaskCommand,
};
use pmo::decimal::Decimal;
use pmo::enums::{Priority, ProjectStatus, TaskStatus, UserRole};
use pmo::error::DomainError;
use pmo::notification::{NotificationAppService, NotificationRepository, NotificationType};
use pmo::project::{ProjectAppService, ProjectRepository};
use pmo::tag::{TagAppService, TagRepository};
use pmo::task::{TaskAppService, TaskRepository};

fn member(id: u128) -> Principal {
    Principal { id, role: UserRole::Member }
}

#[test]
fn project_partial_update_leaves_missing_fields() {
    let mut service = ProjectAppService::new(ProjectRepository::new());
    let alice = member(1);
    let project = api::create_project(
        &mut service,
        alice,
        CreateProjectCommand {
            name: "Atlas".to_string(),
            description: Some("v1".to_string()),
            status: Some(ProjectStatus::Active),
            priority: Some(Priority::High),
            start_date: Some(100),
            end_date: None,
            budget: Some(Decimal::new(125000, 2)),
        },
    )
    .unwrap();

    let updated = api::update_project(
        &mut service,
        alice,
        project.id,
        UpdateProjectCommand {
            name: None,
            description: None,
            status: Some(ProjectStatus::Completed),
            priority: None,
            start_date: None,
            end_date: Some(200),
            budget: None,
        },
    )
    .unwrap();

    assert_eq!(updated.name, "Atlas");
    assert_eq!(updated.description.as_deref(), Some("v1"));
    assert_eq!(updated.status, ProjectStatus::Completed);
    assert_eq!(updated.priority, Priority::High);
    assert_eq!(updated.start_date, Some(100));
    assert_eq!(updated.end_date, Some(200));
    assert_eq!(updated.budget, Some(Decimal::new(125000, 2)));
    assert_eq!(updated.owner_id, alice.id);
}

#[test]
fn task_partial_update_and_defaults() {
    let mut projects = ProjectAppService::new(ProjectRepository::new());
    let mut tasks = TaskAppService::new(TaskRepository::new());
    let alice = member(1);
    let project = api::create_project(
        &mut projects,
        alice,
        CreateProjectCommand {
            name: "Atlas".to_string(),
            description: None,
            status: None,
            priority: None,
            start_date: None,
            end_date: None,
            budget: None,
        },
    )
    .unwrap();

    let task = api::create_task(
        &mut tasks,
        &projects,
        alice,
        CreateTaskCommand {
            project_id: project.id,
            title: "Ship".to_string(),
            description: None,
            priority: None,
            assignee_id: None,
            due_date: None,
            estimated_hours: Some(800),
        },
    )
    .unwrap();
    assert_eq!(task.status, TaskStatus::Todo);
    assert_eq!(task.priority, Priority::Medium);

    let updated = api::update_task(
        &mut tasks,
        &projects,
        alice,
        task.id,
        UpdateTaskCommand {
            title: None,
            description: Some("cutover".to_string()),
            status: Some(TaskStatus::InProgress),
            priority: None,
            assignee_id: Some(alice.id),
            due_date: None,
            estimated_hours: None,
            actual_hours: Some(150),
        },
    )
    .unwrap();

    assert_eq!(updated.title, "Ship");
    assert_eq!(updated.description.as_deref(), Some("cutover"));
    assert_eq!(updated.status, TaskStatus::InProgress);
    assert_eq!(updated.priority, Priority::Medium);
    assert_eq!(updated.assignee_id, Some(alice.id));
    assert_eq!(updated.estimated_hours, Some(800));
    assert_eq!(updated.actual_hours, Some(150));
    assert_eq!(updated.project_id, project.id);
}

#[test]
fn set_task_tags_replaces_links() {
    let mut service = TagAppService::new(TagRepository::new());
    let bug = service
        .create_tag(CreateTagCommand { name: "Bug".to_string(), color: None, description: None })
        .unwrap();
    let feat = service
        .create_tag(CreateTagCommand {
            name: "Feature".to_string(),
            color: None,
            description: None,
        })
        .unwrap();

    api::add_tag_to_task(&mut service, 7, bug.id).unwrap();
    let after = api::set_task_tags(&mut service, 7, vec![feat.id]).unwrap();
    assert_eq!(after.len(), 1);
    assert_eq!(after[0].id, feat.id);

    // A link to a missing tag is refused and changes nothing.
    let err = api::set_task_tags(&mut service, 7, vec![feat.id, 999]).unwrap_err();
    assert!(matches!(err, DomainError::NotFound(_)));
    let kept = api::get_task_tags(&service, 7).unwrap();
    assert_eq!(kept.len(), 1);
    assert_eq!(kept[0].id, feat.id);

    // Removing one link keeps the rest.
    api::add_tag_to_task(&mut service, 7, bug.id).unwrap();
    api::remove_tag_from_task(&mut service, 7, feat.id).unwrap();
    let left = api::get_task_tags(&service, 7).unwrap();
    assert_eq!(left.len(), 1);
    assert_eq!(left[0].id, bug.id);
}

#[test]
fn activity_listing_defaults_and_caps() {
    let mut repo = ActivityLogRepository::new();
    for i in 0..120 {
        let log = ActivityLog::new(
            None,
            None,
            format!("action-{}", i),
            "project".to_string(),
            42,
            None,
        );
        repo.create(&log).unwrap();
    }
    let service = ActivityAppService::new(repo);
    let users = Vec::new();
    let projects = ProjectRepository::new();

    let q = |limit: Option<i64>, offset: Option<i64>| pmo::api::ListActivitiesQuery {
        limit,
        offset,
        project_id: None,
        user_id: None,
    };

    // Without a limit, the page holds 50 records.
    let page = api::list_activities(&service, &users, &projects, q(None, None)).unwrap();
    assert_eq!(page.len(), 50);

    // A requested limit is capped at 100.
    let page = api::list_activities(&service, &users, &projects, q(Some(1000), None)).unwrap();
    assert_eq!(page.len(), 100);

    // Paging past the end yields the remainder.
    let page =
        api::list_activities(&service, &users, &projects, q(Some(100), Some(100))).unwrap();
    assert_eq!(page.len(), 20);

    assert_eq!(service.count_activities().unwrap(), 120);
}

#[test]
fn task_views_by_status_and_assignee() {
    let mut projects = ProjectAppService::new(ProjectRepository::new());
    let mut tasks = TaskAppService::new(TaskRepository::new());
    let alice = member(1);
    let project = api::create_project(
        &mut projects,
        alice,
        CreateProjectCommand {
            name: "Atlas".to_string(),
            description: None,
            status: None,
            priority: None,
            start_date: None,
            end_date: None,
            budget: None,
        },
    )
    .unwrap();

    let mut make = |title: &str, assignee: Option<u128>| {
        api::create_task(
            &mut tasks,
            &projects,
            alice,
            CreateTaskCommand {
                project_id: project.id,
                title: title.to_string(),
                description: None,
                priority: None,
                assignee_id: assignee,
                due_date: None,
                estimated_hours: None,
            },
        )
        .unwrap()
    };
    let a = make("one", Some(alice.id));
    let _b = make("two", None);

    let todo = tasks.task_repository.find_by_status(TaskStatus::Todo);
    assert_eq!(todo.len(), 2);
    let done = tasks.task_repository.find_by_status(TaskStatus::Done);
    assert_eq!(done.len(), 0);

    let mine = tasks.get_tasks_by_assignee(alice.id).unwrap();
    assert_eq!(mine.len(), 1);
    assert_eq!(mine[0].id, a.id);

    let in_project = tasks.get_tasks_by_project(project.id).unwrap();
    assert_eq!(in_project.len(), 2);
}

#[test]
fn unread_notifications_tracking() {
    let mut service = NotificationAppService::new(NotificationRepository::new());
    let user = member(4);
    for i in 0..3 {
        service
            .create_notification(
                user.id,
                NotificationType::System,
                format!("n{}", i),
                "hello".to_string(),
                None,
            )
            .unwrap();
    }
    assert_eq!(api::get_unread_count(&service, user).unwrap(), 3);

    // The inbox listing comes newest first.
    let listed = api::list_notifications(&service, user).unwrap();
    for w in listed.windows(2) {
        assert!(w[0].created_at >= w[1].created_at);
    }

    let first = api::list_notifications(&service, user).unwrap()[0].clone();
    api::mark_as_read(&mut service, user, first.id).unwrap();
    assert_eq!(api::get_unread_count(&service, user).unwrap(), 2);

    api::mark_all_as_read(&mut service, user).unwrap();
    assert_eq!(api::get_unread_count(&service, user).unwrap(), 0);
    assert_eq!(api::list_notifications(&service, user).unwrap().len(), 3);
}

#[test]
fn error_display_text_carries_kind_prefix() {
    let err = DomainError::Forbidden("no entry".to_string());
    assert_eq!(err.display_string(), "Forbidden: no entry");
    let err = DomainError::ValidationError("bad name".to_string());
    assert_eq!(err.display_string(), "Validation error: bad name");
}
