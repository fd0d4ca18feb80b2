//! The access-control laws of the library, stated and proved once over
//! the specification functions the stores and request flows use.

use vstd::prelude::*;

use crate::api::{
    is_admin, notification_access_allowed, task_delete_allowed, task_update_allowed, Principal,
};
use crate::notification::Notification;
use crate::project::{spec_is_member, Project, ProjectRepository};
use crate::task::{Task, TaskRepository};

verus! {

/// A user can access an existing project exactly when the user is its
/// owner or appears in its membership rows.
pub proof fn lemma_project_access_characterization(
    repo: &ProjectRepository,
    p: Project,
    user_id: u128,
)
    requires
        repo.wf(),
        repo.projects@.contains(p),
    ensures
        repo.spec_can_access(p.id, user_id) <==> (user_id == p.owner_id || spec_is_member(
            repo.members@,
            p.id,
            user_id,
        )),
{
    let k = choose|k: int| 0 <= k < repo.projects@.len() && repo.projects@[k] == p;
    assert forall|j: int| 0 <= j < repo.projects@.len() && repo.projects@[j].id == p.id
        implies repo.projects@[j] == p by {
        if j < k {
            assert(repo.projects@[j].id != repo.projects@[k].id);
        } else if j > k {
            assert(repo.projects@[k].id != repo.projects@[j].id);
        }
    }
}

/// A user can access a stored task exactly when the user can access
/// the project it belongs to: tasks have no access list of their own.
pub proof fn lemma_task_access_follows_project(
    tasks: &TaskRepository,
    projects: &ProjectRepository,
    t: Task,
    user_id: u128,
)
    requires
        tasks.wf(),
        tasks.tasks@.contains(t),
    ensures
        tasks.spec_can_access(projects, t.id, user_id) == projects.spec_can_access(
            t.project_id,
            user_id,
        ),
{
    let k = choose|k: int| 0 <= k < tasks.tasks@.len() && tasks.tasks@[k] == t;
    assert forall|j: int| 0 <= j < tasks.tasks@.len() && tasks.tasks@[j].id == t.id
        implies tasks.tasks@[j] == t by {
        if j < k {
            assert(tasks.tasks@[j].id != tasks.tasks@[k].id);
        } else if j > k {
            assert(tasks.tasks@[k].id != tasks.tasks@[j].id);
        }
    }
}

/// Whoever may delete a task may also update it: deletion is the
/// strictly narrower permission.
pub proof fn lemma_task_delete_implies_update(
    tasks: &TaskRepository,
    projects: &ProjectRepository,
    principal: Principal,
    task_id: u128,
)
    requires
        tasks.wf(),
    ensures
        task_delete_allowed(tasks, projects, principal, task_id) ==> task_update_allowed(
            tasks,
            projects,
            principal,
            task_id,
        ),
{
    if !is_admin(principal) && tasks.spec_is_project_owner(projects, task_id, principal.id) {
        let i = choose|i: int| 0 <= i < tasks.tasks@.len() && tasks.tasks@[i].id == task_id
            && projects.spec_is_owner(tasks.tasks@[i].project_id, principal.id);
        assert(projects.spec_can_access(tasks.tasks@[i].project_id, principal.id));
    }
}

/// The asymmetry is strict, shown on the one principal the table
/// separates: a mere member of a task's project (not its owner, not an
/// administrator) satisfies `task_update_allowed` — the update flow
/// proceeds to the service — yet fails `task_delete_allowed`, so the
/// delete flow turns that same principal away.
pub proof fn lemma_member_updates_but_cannot_delete(
    tasks: &TaskRepository,
    projects: &ProjectRepository,
    principal: Principal,
    t: Task,
)
    requires
        tasks.wf(),
        tasks.tasks@.contains(t),
        !is_admin(principal),
        projects.spec_has_project(t.project_id),
        spec_is_member(projects.members@, t.project_id, principal.id),
        !projects.spec_is_owner(t.project_id, principal.id),
    ensures
        task_update_allowed(tasks, projects, principal, t.id),
        !task_delete_allowed(tasks, projects, principal, t.id),
{
    let k = choose|k: int| 0 <= k < tasks.tasks@.len() && tasks.tasks@[k] == t;
    assert(tasks.spec_can_access(projects, t.id, principal.id)) by {
        assert(projects.spec_can_access(tasks.tasks@[k].project_id, principal.id));
    }
    assert forall|j: int| 0 <= j < tasks.tasks@.len() && tasks.tasks@[j].id == t.id
        implies tasks.tasks@[j] == t by {
        if j < k {
            assert(tasks.tasks@[j].id != tasks.tasks@[k].id);
        } else if j > k {
            assert(tasks.tasks@[k].id != tasks.tasks@[j].id);
        }
    }
}

/// Notifications have no Admin override: a principal holding the Admin
/// role is still denied on any notification that is not the
/// principal's own.
pub proof fn lemma_notification_no_admin_override(n: Notification, principal: Principal)
    requires
        is_admin(principal),
        n.user_id != principal.id,
    ensures
        !notification_access_allowed(n, principal),
{
}

} // verus!
