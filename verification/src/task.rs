//! Tasks: the task entity, the in-memory task store and the task
//! application service. A task has no access list of its own: access is
//! derived from its parent project, and deletion is restricted further,
//! to the project owner (or an administrator, one layer up).

use vstd::prelude::*;

use crate::commands::{CreateTaskCommand, UpdateTaskCommand};
use crate::enums::{Priority, TaskStatus};
use crate::error::DomainError;
use crate::fresh::{fresh_id, now_micros};
use crate::order::{
    lemma_permutation_keeps_unique_keys, listed_in_order, sort_in_order, ListOrder,
};
use crate::project::ProjectRepository;
use crate::seqs::{
    lemma_filter_push, lemma_filter_unique_keys, lemma_subrange_full, lemma_subrange_push,
};

verus! {

/// A task in a project. Hour fields are hundredths of an hour;
/// timestamps are microseconds since the Unix epoch.
#[derive(Debug)]
pub struct Task {
    pub id: u128,
    pub project_id: u128,
    pub milestone_id: Option<u128>,
    pub title: String,
    pub description: Option<String>,
    pub status: TaskStatus,
    pub priority: Priority,
    pub assignee_id: Option<u128>,
    pub due_date: Option<i64>,
    pub estimated_hours: Option<i64>,
    pub actual_hours: Option<i64>,
    pub created_at: i64,
    pub updated_at: i64,
}

impl Task {
    /// A fresh task in the given project; a missing priority falls back
    /// to the default.
    pub fn new(
        project_id: u128,
        title: String,
        description: Option<String>,
        priority: Option<Priority>,
        assignee_id: Option<u128>,
        due_date: Option<i64>,
        estimated_hours: Option<i64>,
    ) -> (r: Task)
        ensures
            r.project_id == project_id,
            r.title == title,
            r.description == description,
            r.status == TaskStatus::Todo,
            r.priority == (match priority {
                Some(p) => p,
                None => Priority::Medium,
            }),
            r.assignee_id == assignee_id,
            r.due_date == due_date,
            r.estimated_hours == estimated_hours,
            r.actual_hours is None,
            r.milestone_id is None,
            r.created_at == r.updated_at,
    {
        let now = now_micros();
        Task {
            id: fresh_id(),
            project_id,
            milestone_id: None,
            title,
            description,
            status: TaskStatus::Todo,
            priority: match priority {
                Some(p) => p,
                None => Priority::Medium,
            },
            assignee_id,
            due_date,
            estimated_hours,
            actual_hours: None,
            created_at: now,
            updated_at: now,
        }
    }

    /// Moves the task to a new lifecycle state.
    pub fn update_status(&mut self, status: TaskStatus)
        ensures
            final(self).status == status,
            final(self).id == old(self).id,
            final(self).project_id == old(self).project_id,
            final(self).milestone_id == old(self).milestone_id,
            final(self).title == old(self).title,
            final(self).description == old(self).description,
            final(self).priority == old(self).priority,
            final(self).assignee_id == old(self).assignee_id,
            final(self).due_date == old(self).due_date,
            final(self).estimated_hours == old(self).estimated_hours,
            final(self).actual_hours == old(self).actual_hours,
            final(self).created_at == old(self).created_at,
    {
        self.status = status;
        self.updated_at = now_micros();
    }

    /// Assigns the task (or clears the assignee with `None`).
    pub fn assign_to(&mut self, assignee_id: Option<u128>)
        ensures
            final(self).assignee_id == assignee_id,
            final(self).id == old(self).id,
            final(self).project_id == old(self).project_id,
            final(self).milestone_id == old(self).milestone_id,
            final(self).title == old(self).title,
            final(self).description == old(self).description,
            final(self).status == old(self).status,
            final(self).priority == old(self).priority,
            final(self).due_date == old(self).due_date,
            final(self).estimated_hours == old(self).estimated_hours,
            final(self).actual_hours == old(self).actual_hours,
            final(self).created_at == old(self).created_at,
    {
        self.assignee_id = assignee_id;
        self.updated_at = now_micros();
    }
}

impl Clone for Task {
    fn clone(&self) -> (r: Self)
        ensures
            r == *self,
    {
        Task {
            id: self.id,
            project_id: self.project_id,
            milestone_id: self.milestone_id,
            title: self.title.clone(),
            description: match &self.description {
                Some(d) => Some(d.clone()),
                None => None,
            },
            status: self.status,
            priority: self.priority,
            assignee_id: self.assignee_id,
            due_date: self.due_date,
            estimated_hours: self.estimated_hours,
            actual_hours: self.actual_hours,
            created_at: self.created_at,
            updated_at: self.updated_at,
        }
    }
}

/// Task listings come newest first, by creation time.
impl ListOrder for Task {
    open spec fn spec_le(&self, other: &Self) -> bool {
        self.created_at >= other.created_at
    }

    proof fn lemma_total(a: &Self, b: &Self) {
    }

    proof fn lemma_trans(a: &Self, b: &Self, c: &Self) {
    }

    fn le(&self, other: &Self) -> bool {
        self.created_at >= other.created_at
    }
}

/// Index of the task with the given identifier (meaningful only when
/// one exists; identifiers are unique in a well-formed store).
pub open spec fn task_idx(tasks: Seq<Task>, id: u128) -> int {
    choose|i: int| 0 <= i < tasks.len() && tasks[i].id == id
}

/// In a store with unique identifiers, a contained task with the given
/// identifier sits at `task_idx`.
pub proof fn lemma_task_at_idx(tasks: Seq<Task>, t: Task, id: u128)
    requires
        forall|i: int, j: int| 0 <= i < j < tasks.len() ==> tasks[i].id != tasks[j].id,
        tasks.contains(t),
        t.id == id,
    ensures
        0 <= task_idx(tasks, id) < tasks.len(),
        tasks[task_idx(tasks, id)] == t,
{
    let k = choose|k: int| 0 <= k < tasks.len() && tasks[k] == t;
    assert(0 <= k < tasks.len() && tasks[k].id == id);
    let i = task_idx(tasks, id);
    assert(0 <= i < tasks.len() && tasks[i].id == id);
    if i != k {
        if i < k {
            assert(tasks[i].id != tasks[k].id);
        } else {
            assert(tasks[k].id != tasks[i].id);
        }
    }
}

/// In-memory task store. Task identifiers are unique, as the primary
/// key makes them.
pub struct TaskRepository {
    pub tasks: Vec<Task>,
}

impl TaskRepository {
    /// Store invariant: no two tasks share an identifier.
    pub open spec fn wf(&self) -> bool {
        forall|i: int, j: int|
            0 <= i < j < self.tasks@.len() ==> self.tasks@[i].id != self.tasks@[j].id
    }

    pub open spec fn spec_has_task(&self, id: u128) -> bool {
        exists|i: int| 0 <= i < self.tasks@.len() && self.tasks@[i].id == id
    }

    /// Access to a task is access to its parent project: the task
    /// exists and the user can access the project it belongs to.
    pub open spec fn spec_can_access(
        &self,
        projects: &ProjectRepository,
        task_id: u128,
        user_id: u128,
    ) -> bool {
        exists|i: int| 0 <= i < self.tasks@.len() && self.tasks@[i].id == task_id
            && projects.spec_can_access(#[trigger] self.tasks@[i].project_id, user_id)
    }

    /// The user owns the project that contains the task.
    pub open spec fn spec_is_project_owner(
        &self,
        projects: &ProjectRepository,
        task_id: u128,
        user_id: u128,
    ) -> bool {
        exists|i: int| 0 <= i < self.tasks@.len() && self.tasks@[i].id == task_id
            && projects.spec_is_owner(#[trigger] self.tasks@[i].project_id, user_id)
    }

    pub fn new() -> (r: Self)
        ensures
            r.wf(),
            r.tasks@.len() == 0,
    {
        TaskRepository { tasks: Vec::new() }
    }

    pub fn find_by_id(&self, id: u128) -> (r: Option<Task>)
        ensures
            r is Some <==> self.spec_has_task(id),
            r matches Some(t) ==> t.id == id && self.tasks@.contains(t),
    {
        let n = self.tasks.len();
        let mut i: usize = 0;
        while i < n
            invariant
                i <= n,
                n == self.tasks@.len(),
                forall|j: int| 0 <= j < i ==> self.tasks@[j].id != id,
            decreases n - i,
        {
            if self.tasks[i].id == id {
                return Some(self.tasks[i].clone());
            }
            i = i + 1;
        }
        None
    }

    /// Every task, newest first.
    pub fn find_all(&self) -> (r: Vec<Task>)
        ensures
            r@.to_multiset() == self.tasks@.to_multiset(),
            listed_in_order(r@),
    {
        let n = self.tasks.len();
        let mut out: Vec<Task> = Vec::new();
        let mut i: usize = 0;
        while i < n
            invariant
                i <= n,
                n == self.tasks@.len(),
                out@ == self.tasks@.subrange(0, i as int),
            decreases n - i,
        {
            out.push(self.tasks[i].clone());
            proof {
                lemma_subrange_push(self.tasks@, i as int);
            }
            i = i + 1;
        }
        proof {
            lemma_subrange_full(self.tasks@);
        }
        sort_in_order(out)
    }

    /// Tasks of the project, newest first.
    pub fn find_by_project(&self, project_id: u128) -> (r: Vec<Task>)
        ensures
            r@.to_multiset() == self.tasks@.filter(
                |t: Task| t.project_id == project_id,
            ).to_multiset(),
            listed_in_order(r@),
    {
        let ghost pred = |t: Task| t.project_id == project_id;
        let n = self.tasks.len();
        let mut out: Vec<Task> = Vec::new();
        let mut i: usize = 0;
        while i < n
            invariant
                i <= n,
                n == self.tasks@.len(),
                out@ == self.tasks@.subrange(0, i as int).filter(pred),
            decreases n - i,
        {
            if self.tasks[i].project_id == project_id {
                out.push(self.tasks[i].clone());
            }
            proof {
                lemma_subrange_push(self.tasks@, i as int);
                lemma_filter_push(self.tasks@.subrange(0, i as int), self.tasks@[i as int], pred);
            }
            i = i + 1;
        }
        proof {
            lemma_subrange_full(self.tasks@);
        }
        sort_in_order(out)
    }

    /// Tasks assigned to the user, newest first.
    pub fn find_by_assignee(&self, user_id: u128) -> (r: Vec<Task>)
        ensures
            r@.to_multiset() == self.tasks@.filter(
                |t: Task| t.assignee_id == Some(user_id),
            ).to_multiset(),
            listed_in_order(r@),
    {
        let ghost pred = |t: Task| t.assignee_id == Some(user_id);
        let n = self.tasks.len();
        let mut out: Vec<Task> = Vec::new();
        let mut i: usize = 0;
        while i < n
            invariant
                i <= n,
                n == self.tasks@.len(),
                out@ == self.tasks@.subrange(0, i as int).filter(pred),
            decreases n - i,
        {
            let is_assignee = match self.tasks[i].assignee_id {
                Some(a) => a == user_id,
                None => false,
            };
            if is_assignee {
                out.push(self.tasks[i].clone());
            }
            proof {
                lemma_subrange_push(self.tasks@, i as int);
                lemma_filter_push(self.tasks@.subrange(0, i as int), self.tasks@[i as int], pred);
            }
            i = i + 1;
        }
        proof {
            lemma_subrange_full(self.tasks@);
        }
        sort_in_order(out)
    }

    /// Tasks in the given lifecycle state, newest first.
    pub fn find_by_status(&self, status: TaskStatus) -> (r: Vec<Task>)
        ensures
            r@.to_multiset() == self.tasks@.filter(
                |t: Task| t.status == status,
            ).to_multiset(),
            listed_in_order(r@),
    {
        let ghost pred = |t: Task| t.status == status;
        let n = self.tasks.len();
        let mut out: Vec<Task> = Vec::new();
        let mut i: usize = 0;
        while i < n
            invariant
                i <= n,
                n == self.tasks@.len(),
                out@ == self.tasks@.subrange(0, i as int).filter(pred),
            decreases n - i,
        {
            if self.tasks[i].status == status {
                out.push(self.tasks[i].clone());
            }
            proof {
                lemma_subrange_push(self.tasks@, i as int);
                lemma_filter_push(self.tasks@.subrange(0, i as int), self.tasks@[i as int], pred);
            }
            i = i + 1;
        }
        proof {
            lemma_subrange_full(self.tasks@);
        }
        sort_in_order(out)
    }

    /// Tasks of every project the user can access, each task exactly
    /// once, newest first.
    pub fn find_accessible_by_user(&self, projects: &ProjectRepository, user_id: u128) -> (r:
        Vec<Task>)
        requires
            self.wf(),
            projects.wf(),
        ensures
            r@.to_multiset() == self.tasks@.filter(
                |t: Task| projects.spec_can_access(t.project_id, user_id),
            ).to_multiset(),
            listed_in_order(r@),
            forall|i: int, j: int| 0 <= i < j < r@.len() ==> r@[i].id != r@[j].id,
    {
        let ghost pred = |t: Task| projects.spec_can_access(t.project_id, user_id);
        let n = self.tasks.len();
        let mut out: Vec<Task> = Vec::new();
        let mut i: usize = 0;
        while i < n
            invariant
                i <= n,
                n == self.tasks@.len(),
                out@ == self.tasks@.subrange(0, i as int).filter(pred),
            decreases n - i,
        {
            if projects.can_user_access(self.tasks[i].project_id, user_id) {
                out.push(self.tasks[i].clone());
            }
            proof {
                lemma_subrange_push(self.tasks@, i as int);
                lemma_filter_push(self.tasks@.subrange(0, i as int), self.tasks@[i as int], pred);
            }
            i = i + 1;
        }
        proof {
            lemma_subrange_full(self.tasks@);
            lemma_filter_unique_keys(self.tasks@, pred, |t: Task| t.id);
        }
        let sorted = sort_in_order(out);
        proof {
            lemma_permutation_keeps_unique_keys(
                self.tasks@.filter(pred),
                sorted@,
                |t: Task| t.id,
            );
        }
        sorted
    }

    /// Whether the user can access the task, through its parent
    /// project.
    pub fn can_user_access(
        &self,
        projects: &ProjectRepository,
        task_id: u128,
        user_id: u128,
    ) -> (r: bool)
        requires
            self.wf(),
            projects.wf(),
        ensures
            r == self.spec_can_access(projects, task_id, user_id),
    {
        let n = self.tasks.len();
        let mut i: usize = 0;
        while i < n
            invariant
                i <= n,
                n == self.tasks@.len(),
                forall|j: int| 0 <= j < i ==> self.tasks@[j].id != task_id,
            decreases n - i,
        {
            if self.tasks[i].id == task_id {
                proof {
                    assert forall|j: int|
                        0 <= j < self.tasks@.len() && self.tasks@[j].id == task_id
                        implies j == i as int by {
                        if j < i as int {
                            assert(self.tasks@[j].id != self.tasks@[i as int].id);
                        } else if j > i as int {
                            assert(self.tasks@[i as int].id != self.tasks@[j].id);
                        }
                    }
                }
                return projects.can_user_access(self.tasks[i].project_id, user_id);
            }
            i = i + 1;
        }
        false
    }

    /// Whether the user owns the project that contains the task.
    pub fn is_project_owner(
        &self,
        projects: &ProjectRepository,
        task_id: u128,
        user_id: u128,
    ) -> (r: bool)
        requires
            self.wf(),
        ensures
            r == self.spec_is_project_owner(projects, task_id, user_id),
    {
        let n = self.tasks.len();
        let mut i: usize = 0;
        while i < n
            invariant
                i <= n,
                n == self.tasks@.len(),
                forall|j: int| 0 <= j < i ==> self.tasks@[j].id != task_id,
            decreases n - i,
        {
            if self.tasks[i].id == task_id {
                proof {
                    assert forall|j: int|
                        0 <= j < self.tasks@.len() && self.tasks@[j].id == task_id
                        implies j == i as int by {
                        if j < i as int {
                            assert(self.tasks@[j].id != self.tasks@[i as int].id);
                        } else if j > i as int {
                            assert(self.tasks@[i as int].id != self.tasks@[j].id);
                        }
                    }
                }
                return projects.is_owner(self.tasks[i].project_id, user_id);
            }
            i = i + 1;
        }
        false
    }

    /// Whether the user can access the project (used before creating a
    /// task in it).
    pub fn can_access_project(
        &self,
        projects: &ProjectRepository,
        project_id: u128,
        user_id: u128,
    ) -> (r: bool)
        requires
            projects.wf(),
        ensures
            r == projects.spec_can_access(project_id, user_id),
    {
        projects.can_user_access(project_id, user_id)
    }

    /// Inserts a task. A duplicate identifier is rejected as the
    /// primary key rejects it.
    pub fn create(&mut self, task: &Task) -> (r: Result<Task, DomainError>)
        requires
            old(self).wf(),
        ensures
            final(self).wf(),
            old(self).spec_has_task(task.id) ==> (r matches Err(e)
                && e matches DomainError::AlreadyExists(m)
                && m@ == "Resource already exists"@
                && final(self).tasks@ == old(self).tasks@),
            !old(self).spec_has_task(task.id) ==> (r matches Ok(t) && t == *task
                && final(self).tasks@ == old(self).tasks@.push(*task)),
    {
        let n = self.tasks.len();
        let mut i: usize = 0;
        while i < n
            invariant
                i <= n,
                n == self.tasks@.len(),
                forall|j: int| 0 <= j < i ==> self.tasks@[j].id != task.id,
            decreases n - i,
        {
            if self.tasks[i].id == task.id {
                return Err(DomainError::AlreadyExists(
                    String::from_str("Resource already exists"),
                ));
            }
            i = i + 1;
        }
        self.tasks.push(task.clone());
        Ok(task.clone())
    }

    /// Replaces the stored task with the same identifier; a missing row
    /// is reported as not found.
    pub fn update(&mut self, task: &Task) -> (r: Result<Task, DomainError>)
        requires
            old(self).wf(),
        ensures
            final(self).wf(),
            !old(self).spec_has_task(task.id) ==> (r matches Err(e)
                && e matches DomainError::NotFound(m)
                && m@ == "Resource not found"@
                && final(self).tasks@ == old(self).tasks@),
            old(self).spec_has_task(task.id) ==> (r matches Ok(t) && t == *task
                && final(self).tasks@ == old(self).tasks@.update(
                task_idx(old(self).tasks@, task.id),
                *task,
            )),
    {
        let n = self.tasks.len();
        let mut i: usize = 0;
        while i < n
            invariant
                i <= n,
                n == self.tasks@.len(),
                self.tasks@ == old(self).tasks@,
                forall|j: int| 0 <= j < i ==> self.tasks@[j].id != task.id,
            decreases n - i,
        {
            if self.tasks[i].id == task.id {
                proof {
                    lemma_task_at_idx(self.tasks@, self.tasks@[i as int], task.id);
                }
                self.tasks.set(i, task.clone());
                proof {
                    assert forall|p: int, q: int|
                        0 <= p < q < self.tasks@.len() implies self.tasks@[p].id
                        != self.tasks@[q].id by {
                        assert(old(self).tasks@[p].id != old(self).tasks@[q].id);
                    }
                }
                return Ok(task.clone());
            }
            i = i + 1;
        }
        Err(DomainError::NotFound(String::from_str("Resource not found")))
    }

    /// Deletes the task with this identifier; deleting a missing task
    /// is not an error.
    pub fn delete(&mut self, id: u128) -> (r: Result<(), DomainError>)
        requires
            old(self).wf(),
        ensures
            final(self).wf(),
            r is Ok,
            !old(self).spec_has_task(id) ==> final(self).tasks@ == old(self).tasks@,
            old(self).spec_has_task(id) ==> final(self).tasks@ == old(self).tasks@.remove(
                task_idx(old(self).tasks@, id),
            ),
    {
        let n = self.tasks.len();
        let mut i: usize = 0;
        while i < n
            invariant
                i <= n,
                n == self.tasks@.len(),
                self.tasks@ == old(self).tasks@,
                forall|j: int| 0 <= j < i ==> self.tasks@[j].id != id,
            decreases n - i,
        {
            if self.tasks[i].id == id {
                proof {
                    lemma_task_at_idx(self.tasks@, self.tasks@[i as int], id);
                }
                self.tasks.remove(i);
                proof {
                    assert forall|p: int, q: int|
                        0 <= p < q < self.tasks@.len() implies self.tasks@[p].id
                        != self.tasks@[q].id by {
                        let op: int = if p < i { p } else { p + 1 };
                        let oq: int = if q < i { q } else { q + 1 };
                        assert(self.tasks@[p] == old(self).tasks@[op]);
                        assert(self.tasks@[q] == old(self).tasks@[oq]);
                    }
                }
                return Ok(());
            }
            i = i + 1;
        }
        Ok(())
    }
}

/// How a stored task and an update command combine into the updated
/// task. The project link and creation time never change; the assignee
/// is replaced only when one is given.
pub open spec fn spec_task_updated(before: Task, cmd: UpdateTaskCommand, after: Task) -> bool {
    &&& after.id == before.id
    &&& after.project_id == before.project_id
    &&& after.milestone_id == before.milestone_id
    &&& after.created_at == before.created_at
    &&& after.title == (match cmd.title {
        Some(t) => t,
        None => before.title,
    })
    &&& after.description == (match cmd.description {
        Some(d) => Some(d),
        None => before.description,
    })
    &&& after.status == (match cmd.status {
        Some(s) => s,
        None => before.status,
    })
    &&& after.priority == (match cmd.priority {
        Some(p) => p,
        None => before.priority,
    })
    &&& after.assignee_id == (match cmd.assignee_id {
        Some(a) => Some(a),
        None => before.assignee_id,
    })
    &&& after.due_date == (match cmd.due_date {
        Some(d) => Some(d),
        None => before.due_date,
    })
    &&& after.estimated_hours == (match cmd.estimated_hours {
        Some(h) => Some(h),
        None => before.estimated_hours,
    })
    &&& after.actual_hours == (match cmd.actual_hours {
        Some(h) => Some(h),
        None => before.actual_hours,
    })
}

/// Task use cases: list, the three access predicates, fetch, create,
/// partial update, delete, and the by-project and by-assignee views.
pub struct TaskAppService {
    pub task_repository: TaskRepository,
}

impl TaskAppService {
    pub fn new(task_repository: TaskRepository) -> (r: Self)
        ensures
            r.task_repository == task_repository,
    {
        TaskAppService { task_repository }
    }

    /// Every task, newest first; the callers reserve this for
    /// administrators.
    pub fn list_tasks(&self) -> (r: Result<Vec<Task>, DomainError>)
        ensures
            r matches Ok(v) && v@.to_multiset() == self.task_repository.tasks@.to_multiset(),
            r matches Ok(v) ==> listed_in_order(v@),
    {
        Ok(self.task_repository.find_all())
    }

    /// Tasks from projects the user can access, each exactly once.
    pub fn list_accessible_tasks(&self, projects: &ProjectRepository, user_id: u128) -> (r:
        Result<Vec<Task>, DomainError>)
        requires
            self.task_repository.wf(),
            projects.wf(),
        ensures
            r matches Ok(v) && v@.to_multiset() == self.task_repository.tasks@.filter(
                |t: Task| projects.spec_can_access(t.project_id, user_id),
            ).to_multiset(),
            r matches Ok(v) ==> listed_in_order(v@),
            r matches Ok(v) ==> forall|i: int, j: int|
                0 <= i < j < v@.len() ==> v@[i].id != v@[j].id,
    {
        Ok(self.task_repository.find_accessible_by_user(projects, user_id))
    }

    /// Whether the user can access the task (through its project).
    pub fn can_user_access(
        &self,
        projects: &ProjectRepository,
        task_id: u128,
        user_id: u128,
    ) -> (r: Result<bool, DomainError>)
        requires
            self.task_repository.wf(),
            projects.wf(),
        ensures
            r matches Ok(b) && b == self.task_repository.spec_can_access(
                projects,
                task_id,
                user_id,
            ),
    {
        Ok(self.task_repository.can_user_access(projects, task_id, user_id))
    }

    /// Whether the user owns the project containing the task.
    pub fn is_project_owner(
        &self,
        projects: &ProjectRepository,
        task_id: u128,
        user_id: u128,
    ) -> (r: Result<bool, DomainError>)
        requires
            self.task_repository.wf(),
        ensures
            r matches Ok(b) && b == self.task_repository.spec_is_project_owner(
                projects,
                task_id,
                user_id,
            ),
    {
        Ok(self.task_repository.is_project_owner(projects, task_id, user_id))
    }

    /// Whether the user can access the project (used before creating a
    /// task in it).
    pub fn can_access_project(
        &self,
        projects: &ProjectRepository,
        project_id: u128,
        user_id: u128,
    ) -> (r: Result<bool, DomainError>)
        requires
            projects.wf(),
        ensures
            r matches Ok(b) && b == projects.spec_can_access(project_id, user_id),
    {
        Ok(self.task_repository.can_access_project(projects, project_id, user_id))
    }

    pub fn get_task(&self, id: u128) -> (r: Result<Task, DomainError>)
        ensures
            r is Ok <==> self.task_repository.spec_has_task(id),
            r matches Ok(t) ==> t.id == id && self.task_repository.tasks@.contains(t),
            r matches Err(e) ==> (e matches DomainError::NotFound(m)
                && m@ == "Task not found"@),
    {
        match self.task_repository.find_by_id(id) {
            Some(t) => Ok(t),
            None => Err(DomainError::NotFound(String::from_str("Task not found"))),
        }
    }

    pub fn create_task(&mut self, cmd: CreateTaskCommand) -> (r: Result<Task, DomainError>)
        requires
            old(self).task_repository.wf(),
        ensures
            final(self).task_repository.wf(),
            r matches Ok(t) ==> t.project_id == cmd.project_id && t.title@ == cmd.title@
                && t.description == cmd.description
                && t.status == TaskStatus::Todo
                && t.priority == (match cmd.priority {
                Some(p) => p,
                None => Priority::Medium,
            })
                && t.assignee_id == cmd.assignee_id && t.due_date == cmd.due_date
                && t.estimated_hours == cmd.estimated_hours
                && final(self).task_repository.tasks@
                    == old(self).task_repository.tasks@.push(t),
            r matches Err(e) ==> e is AlreadyExists
                && final(self).task_repository.tasks@ == old(self).task_repository.tasks@,
    {
        let task = Task::new(
            cmd.project_id,
            cmd.title,
            cmd.description,
            cmd.priority,
            cmd.assignee_id,
            cmd.due_date,
            cmd.estimated_hours,
        );
        self.task_repository.create(&task)
    }

    /// Applies a partial update to an existing task.
    pub fn update_task(&mut self, id: u128, cmd: UpdateTaskCommand) -> (r: Result<
        Task,
        DomainError,
    >)
        requires
            old(self).task_repository.wf(),
        ensures
            final(self).task_repository.wf(),
            !old(self).task_repository.spec_has_task(id) ==> (r matches Err(e)
                && e matches DomainError::NotFound(m)
                && m@ == "Task not found"@
                && final(self).task_repository.tasks@ == old(self).task_repository.tasks@),
            old(self).task_repository.spec_has_task(id) ==> (r matches Ok(t)
                && spec_task_updated(
                old(self).task_repository.tasks@[task_idx(old(self).task_repository.tasks@, id)],
                cmd,
                t,
            )
                && final(self).task_repository.tasks@
                    == old(self).task_repository.tasks@.update(
                task_idx(old(self).task_repository.tasks@, id),
                t,
            )),
    {
        let task_opt = self.task_repository.find_by_id(id);
        let mut task = match task_opt {
            Some(t) => t,
            None => {
                return Err(DomainError::NotFound(String::from_str("Task not found")));
            },
        };
        proof {
            lemma_task_at_idx(self.task_repository.tasks@, task, id);
        }
        if let Some(title) = cmd.title {
            task.title = title;
        }
        if let Some(description) = cmd.description {
            task.description = Some(description);
        }
        if let Some(status) = cmd.status {
            task.update_status(status);
        }
        if let Some(priority) = cmd.priority {
            task.priority = priority;
        }
        if cmd.assignee_id.is_some() {
            task.assign_to(cmd.assignee_id);
        }
        if let Some(due_date) = cmd.due_date {
            task.due_date = Some(due_date);
        }
        if let Some(estimated_hours) = cmd.estimated_hours {
            task.estimated_hours = Some(estimated_hours);
        }
        if let Some(actual_hours) = cmd.actual_hours {
            task.actual_hours = Some(actual_hours);
        }
        self.task_repository.update(&task)
    }

    /// Deletes a task that exists; a missing one is reported as not
    /// found.
    pub fn delete_task(&mut self, id: u128) -> (r: Result<(), DomainError>)
        requires
            old(self).task_repository.wf(),
        ensures
            final(self).task_repository.wf(),
            !old(self).task_repository.spec_has_task(id) ==> (r matches Err(e)
                && e matches DomainError::NotFound(m)
                && m@ == "Task not found"@
                && final(self).task_repository.tasks@ == old(self).task_repository.tasks@),
            old(self).task_repository.spec_has_task(id) ==> (r is Ok
                && final(self).task_repository.tasks@ == old(self).task_repository.tasks@.remove(
                task_idx(old(self).task_repository.tasks@, id),
            )),
    {
        match self.task_repository.find_by_id(id) {
            Some(_) => {},
            None => {
                return Err(DomainError::NotFound(String::from_str("Task not found")));
            },
        }
        self.task_repository.delete(id)
    }

    pub fn get_tasks_by_project(&self, project_id: u128) -> (r: Result<Vec<Task>, DomainError>)
        ensures
            r matches Ok(v) && v@.to_multiset() == self.task_repository.tasks@.filter(
                |t: Task| t.project_id == project_id,
            ).to_multiset(),
            r matches Ok(v) ==> listed_in_order(v@),
    {
        Ok(self.task_repository.find_by_project(project_id))
    }

    pub fn get_tasks_by_assignee(&self, user_id: u128) -> (r: Result<Vec<Task>, DomainError>)
        ensures
            r matches Ok(v) && v@.to_multiset() == self.task_repository.tasks@.filter(
                |t: Task| t.assignee_id == Some(user_id),
            ).to_multiset(),
            r matches Ok(v) ==> listed_in_order(v@),
    {
        Ok(self.task_repository.find_by_assignee(user_id))
    }
}

} // verus!
