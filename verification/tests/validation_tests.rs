//! Command-validation scenarios: tag name uniqueness, attachment size
//! and extension rules, the error taxonomy, and the smaller value
//! helpers.

use pmo::attachment::{AttachmentAppService, AttachmentRepository, MAX_FILE_SIZE};
use pmo::api;
use pmo::api::Principal;
use pmo::commands::{CreateTagCommand, UpdateTagCommand};
use pmo::enums::UserRole;
use pmo::error::DomainError;
use pmo::notification::NotificationType;
use pmo::tag::{TagAppService, TagRepository};
use pmo::time_log::{TimeLogAppService, TimeLogRepository};

fn member(id: u128) -> Principal {
    Principal { id, role: UserRole::Member }
}

fn tag_cmd(name: &str) -> CreateTagCommand {
    CreateTagCommand { name: name.to_string(), color: None, description: None }
}

// ============ Tag name uniqueness ============

#[test]
fn tag_duplicate_name_rejected() {
    let mut service = TagAppService::new(TagRepository::new());
    service.create_tag(tag_cmd("Bug")).unwrap();

    let err = service.create_tag(tag_cmd("Bug")).unwrap_err();
    assert!(matches!(err, DomainError::ValidationError(_)));
    assert_eq!(err.message(), "Tag with this name already exists");
}

#[test]
fn tag_name_differing_in_case_accepted() {
    let mut service = TagAppService::new(TagRepository::new());
    service.create_tag(tag_cmd("Bug")).unwrap();

    // Uniqueness is a case-sensitive exact match.
    let other = service.create_tag(tag_cmd("bug")).unwrap();
    assert_eq!(other.name, "bug");
    assert_eq!(service.list_tags().unwrap().len(), 2);
}

#[test]
fn tag_update_name_collision_rejected() {
    let mut service = TagAppService::new(TagRepository::new());
    let bug = service.create_tag(tag_cmd("Bug")).unwrap();
    let _feat = service.create_tag(tag_cmd("Feature")).unwrap();

    let err = service
        .update_tag(
            bug.id,
            UpdateTagCommand {
                name: Some("Feature".to_string()),
                color: None,
                description: None,
            },
        )
        .unwrap_err();
    assert!(matches!(err, DomainError::ValidationError(_)));

    // Renaming a tag to its own name is not a collision.
    let kept = service
        .update_tag(
            bug.id,
            UpdateTagCommand { name: Some("Bug".to_string()), color: None, description: None },
        )
        .unwrap();
    assert_eq!(kept.name, "Bug");
}

#[test]
fn tag_default_color_applied() {
    let mut service = TagAppService::new(TagRepository::new());
    let tag = service.create_tag(tag_cmd("Bug")).unwrap();
    assert_eq!(tag.color, "#6b7280");

    let colored = service
        .create_tag(CreateTagCommand {
            name: "Urgent".to_string(),
            color: Some("#ff0000".to_string()),
            description: None,
        })
        .unwrap();
    assert_eq!(colored.color, "#ff0000");
}

// ============ Attachment upload rules ============

fn upload(
    service: &mut AttachmentAppService,
    filename: &str,
    data: &Vec<u8>,
) -> Result<pmo::attachment::Attachment, DomainError> {
    api::upload_attachment(
        service,
        member(1),
        7,
        filename.to_string(),
        "application/octet-stream".to_string(),
        data,
    )
}

#[test]
fn upload_at_exact_size_limit_succeeds() {
    let mut service = AttachmentAppService::new(AttachmentRepository::new());
    let data = vec![0u8; 10 * 1024 * 1024];
    assert_eq!(data.len() as i64, MAX_FILE_SIZE);

    let stored = upload(&mut service, "report.pdf", &data).unwrap();
    assert_eq!(stored.size_bytes, MAX_FILE_SIZE);
    assert_eq!(stored.original_filename, "report.pdf");
}

#[test]
fn upload_one_byte_over_limit_rejected() {
    let mut service = AttachmentAppService::new(AttachmentRepository::new());
    let data = vec![0u8; 10 * 1024 * 1024 + 1];

    let err = upload(&mut service, "report.pdf", &data).unwrap_err();
    assert!(matches!(err, DomainError::ValidationError(_)));
    assert_eq!(err.message(), "File size exceeds maximum allowed size of 10 MB");
}

#[test]
fn upload_uppercase_disallowed_extension_rejected() {
    let mut service = AttachmentAppService::new(AttachmentRepository::new());
    let data = vec![0u8; 16];

    let err = upload(&mut service, "setup.EXE", &data).unwrap_err();
    assert!(matches!(err, DomainError::ValidationError(_)));
}

#[test]
fn upload_uppercase_allowed_extension_accepted() {
    let mut service = AttachmentAppService::new(AttachmentRepository::new());
    let data = vec![0u8; 16];

    // "PDF" folds to "pdf", which is in the allow-list.
    let stored = upload(&mut service, "Report.PDF", &data).unwrap();
    assert!(stored.filename.ends_with(".pdf"));
    assert!(stored.storage_path.ends_with(&stored.filename));
}

#[test]
fn upload_without_extension_rejected() {
    let mut service = AttachmentAppService::new(AttachmentRepository::new());
    let data = vec![0u8; 16];

    let err = upload(&mut service, "README", &data).unwrap_err();
    assert!(matches!(err, DomainError::ValidationError(_)));
}

#[test]
fn stored_filename_is_generated_not_user_supplied() {
    let mut service = AttachmentAppService::new(AttachmentRepository::new());
    let data = vec![0u8; 16];

    let stored = upload(&mut service, "../../../etc/passwd.txt", &data).unwrap();
    assert!(!stored.filename.contains(".."));
    assert!(!stored.filename.contains("passwd"));
    assert!(stored.filename.ends_with(".txt"));
    assert_eq!(stored.original_filename, "../../../etc/passwd.txt");
}

#[test]
fn attachment_is_image_by_content_type() {
    let mut service = AttachmentAppService::new(AttachmentRepository::new());
    let data = vec![0u8; 16];
    let image = api::upload_attachment(
        &mut service,
        member(1),
        7,
        "photo.png".to_string(),
        "image/png".to_string(),
        &data,
    )
    .unwrap();
    assert!(image.is_image());

    let doc = upload(&mut service, "report.pdf", &data).unwrap();
    assert!(!doc.is_image());
}

// ============ Error taxonomy ============

#[test]
fn error_kinds_map_to_statuses_and_codes() {
    let cases = vec![
        (DomainError::ValidationError("m".to_string()), 400, "VALIDATION_ERROR"),
        (DomainError::NotFound("m".to_string()), 404, "NOT_FOUND"),
        (DomainError::AlreadyExists("m".to_string()), 409, "ALREADY_EXISTS"),
        (DomainError::Unauthorized("m".to_string()), 401, "UNAUTHORIZED"),
        (DomainError::Forbidden("m".to_string()), 403, "FORBIDDEN"),
        (DomainError::InternalError("m".to_string()), 500, "INTERNAL_ERROR"),
        (DomainError::DatabaseError("m".to_string()), 500, "DATABASE_ERROR"),
    ];
    for (err, status, code) in cases {
        assert_eq!(err.status_code(), status);
        assert_eq!(err.code(), code);
        let envelope = err.to_error_response();
        assert!(!envelope.success);
        assert_eq!(envelope.message, "m");
        assert_eq!(envelope.code.as_deref(), Some(code));
    }
}

// ============ Notification type names ============

#[test]
fn notification_type_name_round_trip() {
    let all = vec![
        (NotificationType::TaskAssigned, "task_assigned"),
        (NotificationType::TaskUpdated, "task_updated"),
        (NotificationType::TaskCompleted, "task_completed"),
        (NotificationType::TaskDueSoon, "task_due_soon"),
        (NotificationType::ProjectUpdated, "project_updated"),
        (NotificationType::CommentAdded, "comment_added"),
        (NotificationType::Mention, "mention"),
        (NotificationType::System, "system"),
    ];
    for (t, name) in all {
        assert_eq!(t.as_str(), name);
        assert_eq!(NotificationType::from_str(name), Ok(t));
    }
    assert_eq!(NotificationType::from_str("no_such_kind"), Err(()));
}

// ============ Listing orders ============

#[test]
fn tags_listed_in_name_order() {
    let mut service = TagAppService::new(TagRepository::new());
    let zeta = service.create_tag(tag_cmd("zeta")).unwrap();
    let alpha = service.create_tag(tag_cmd("Alpha")).unwrap();
    let beta = service.create_tag(tag_cmd("beta")).unwrap();

    // Ascending by code point: uppercase sorts before lowercase.
    let names: Vec<String> = service.list_tags().unwrap().iter().map(|t| t.name.clone()).collect();
    assert_eq!(names, vec!["Alpha", "beta", "zeta"]);

    // Task-tag listings come in the same order.
    api::add_tag_to_task(&mut service, 7, zeta.id).unwrap();
    api::add_tag_to_task(&mut service, 7, beta.id).unwrap();
    api::add_tag_to_task(&mut service, 7, alpha.id).unwrap();
    let names: Vec<String> =
        api::get_task_tags(&service, 7).unwrap().iter().map(|t| t.name.clone()).collect();
    assert_eq!(names, vec!["Alpha", "beta", "zeta"]);
}

#[test]
fn milestones_listed_by_due_date_with_undated_last() {
    let mut service = pmo::project::ProjectAppService::new(pmo::project::ProjectRepository::new());
    let alice = member(1);
    let project = api::create_project(
        &mut service,
        alice,
        pmo::commands::CreateProjectCommand {
            name: "Atlas".to_string(),
            description: None,
            status: None,
            priority: None,
            start_date: None,
            end_date: None,
            budget: None,
        },
    )
    .unwrap();
    for (id, due) in [(1u128, Some(5i64)), (2, None), (3, Some(2))] {
        service.project_repository.milestones.push(pmo::project::Milestone {
            id,
            project_id: project.id,
            name: format!("m{}", id),
            description: None,
            due_date: due,
            completed: false,
            created_at: 0,
            updated_at: 0,
        });
    }
    let listed = api::get_project_milestones(&service, alice, project.id).unwrap();
    let dues: Vec<Option<i64>> = listed.iter().map(|m| m.due_date).collect();
    assert_eq!(dues, vec![Some(2), Some(5), None]);
}

#[test]
fn project_listing_is_newest_first() {
    let mut service = pmo::project::ProjectAppService::new(pmo::project::ProjectRepository::new());
    let alice = member(1);
    for name in ["one", "two", "three"] {
        api::create_project(
            &mut service,
            alice,
            pmo::commands::CreateProjectCommand {
                name: name.to_string(),
                description: None,
                status: None,
                priority: None,
                start_date: None,
                end_date: None,
                budget: None,
            },
        )
        .unwrap();
    }
    let listed = api::list_projects(&service, alice).unwrap();
    assert_eq!(listed.len(), 3);
    for w in listed.windows(2) {
        assert!(w[0].created_at >= w[1].created_at);
    }
}

// ============ Time log listing order ============

#[test]
fn time_logs_listed_newest_date_first() {
    let mut service = TimeLogAppService::new(TimeLogRepository::new());
    let user = member(1);
    for (date, hours) in [(10i64, 100i64), (30, 200), (20, 300)] {
        api::create_time_log(
            &mut service,
            user,
            pmo::api::CreateTimeLogRequest { task_id: 7, hours, date, description: None },
        )
        .unwrap();
    }

    let listed = api::list_my_time_logs(
        &service,
        user,
        pmo::api::ListTimeLogsQuery { start_date: None, end_date: None },
    )
    .unwrap();
    let dates: Vec<i64> = listed.iter().map(|l| l.date).collect();
    assert_eq!(dates, vec![30, 20, 10]);

    // A bounded listing keeps only the range, still newest first.
    let bounded = api::list_my_time_logs(
        &service,
        user,
        pmo::api::ListTimeLogsQuery { start_date: Some(15), end_date: Some(25) },
    )
    .unwrap();
    assert_eq!(bounded.len(), 1);
    assert_eq!(bounded[0].date, 20);
    assert_eq!(bounded[0].hours, 300);
}

#[test]
fn time_log_ties_broken_by_creation_time() {
    let mut service = TimeLogAppService::new(TimeLogRepository::new());
    let user = member(1);
    for hours in [100i64, 200, 300] {
        api::create_time_log(
            &mut service,
            user,
            pmo::api::CreateTimeLogRequest { task_id: 7, hours, date: 10, description: None },
        )
        .unwrap();
    }
    let listed = api::list_my_time_logs(
        &service,
        user,
        pmo::api::ListTimeLogsQuery { start_date: None, end_date: None },
    )
    .unwrap();
    assert_eq!(listed.len(), 3);
    // Equal dates: later creation first.
    for w in listed.windows(2) {
        assert!(w[0].created_at >= w[1].created_at);
    }
}
