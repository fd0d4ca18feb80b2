//! Projects: the project entity, its membership join rows and
//! milestones, the in-memory project store with its access predicates
//! (owner or member), and the project application service.
//!
//! Access rule: a user can access a project exactly when the user is
//! its single owner or appears in the membership rows. The store never
//! widens this on its own; the Admin override sits one layer up, in the
//! request flows.

use vstd::prelude::*;

use crate::commands::{CreateProjectCommand, UpdateProjectCommand};
use crate::decimal::Decimal;
use crate::enums::{Priority, ProjectStatus};
use crate::error::DomainError;
use crate::fresh::{fresh_id, now_micros};
use crate::order::{
    lemma_permutation_keeps_unique_keys, listed_in_order, sort_in_order, ListOrder,
};
use crate::seqs::{
    lemma_filter_push, lemma_filter_unique_keys, lemma_subrange_full, lemma_subrange_push,
};

verus! {

/// A project. Exactly one owner, set at creation and never transferred
/// by the update path. Timestamps are microseconds since the Unix
/// epoch; the budget is an exact decimal amount.
#[derive(Debug)]
pub struct Project {
    pub id: u128,
    pub name: String,
    pub description: Option<String>,
    pub status: ProjectStatus,
    pub priority: Priority,
    pub start_date: Option<i64>,
    pub end_date: Option<i64>,
    pub budget: Option<Decimal>,
    pub owner_id: u128,
    pub created_at: i64,
    pub updated_at: i64,
}

impl Project {
    /// A fresh project owned by `owner_id`; missing status and priority
    /// fall back to their defaults.
    pub fn new(
        name: String,
        description: Option<String>,
        owner_id: u128,
        status: Option<ProjectStatus>,
        priority: Option<Priority>,
        start_date: Option<i64>,
        end_date: Option<i64>,
        budget: Option<Decimal>,
    ) -> (r: Project)
        ensures
            r.name == name,
            r.description == description,
            r.owner_id == owner_id,
            r.status == (match status {
                Some(s) => s,
                None => ProjectStatus::Planning,
            }),
            r.priority == (match priority {
                Some(p) => p,
                None => Priority::Medium,
            }),
            r.start_date == start_date,
            r.end_date == end_date,
            r.budget == budget,
            r.created_at == r.updated_at,
    {
        let now = now_micros();
        Project {
            id: fresh_id(),
            name,
            description,
            status: match status {
                Some(s) => s,
                None => ProjectStatus::Planning,
            },
            priority: match priority {
                Some(p) => p,
                None => Priority::Medium,
            },
            start_date,
            end_date,
            budget,
            owner_id,
            created_at: now,
            updated_at: now,
        }
    }

    /// Moves the project to a new lifecycle state.
    pub fn update_status(&mut self, status: ProjectStatus)
        ensures
            final(self).status == status,
            final(self).id == old(self).id,
            final(self).name == old(self).name,
            final(self).description == old(self).description,
            final(self).priority == old(self).priority,
            final(self).start_date == old(self).start_date,
            final(self).end_date == old(self).end_date,
            final(self).budget == old(self).budget,
            final(self).owner_id == old(self).owner_id,
            final(self).created_at == old(self).created_at,
    {
        self.status = status;
        self.updated_at = now_micros();
    }
}

impl Clone for Project {
    fn clone(&self) -> (r: Self)
        ensures
            r == *self,
    {
        Project {
            id: self.id,
            name: self.name.clone(),
            description: match &self.description {
                Some(d) => Some(d.clone()),
                None => None,
            },
            status: self.status,
            priority: self.priority,
            start_date: self.start_date,
            end_date: self.end_date,
            budget: self.budget,
            owner_id: self.owner_id,
            created_at: self.created_at,
            updated_at: self.updated_at,
        }
    }
}

/// Membership join row: grants read access to a project, nothing more.
#[derive(Clone, Copy, Debug, PartialEq, Eq, Structural)]
pub struct ProjectMember {
    pub id: u128,
    pub project_id: u128,
    pub user_id: u128,
    pub created_at: i64,
}

impl ProjectMember {
    pub fn new(project_id: u128, user_id: u128) -> (r: ProjectMember)
        ensures
            r.project_id == project_id,
            r.user_id == user_id,
    {
        ProjectMember { id: fresh_id(), project_id, user_id, created_at: now_micros() }
    }
}

/// A project milestone.
#[derive(Debug)]
pub struct Milestone {
    pub id: u128,
    pub project_id: u128,
    pub name: String,
    pub description: Option<String>,
    pub due_date: Option<i64>,
    pub completed: bool,
    pub created_at: i64,
    pub updated_at: i64,
}

impl Clone for Milestone {
    fn clone(&self) -> (r: Self)
        ensures
            r == *self,
    {
        Milestone {
            id: self.id,
            project_id: self.project_id,
            name: self.name.clone(),
            description: match &self.description {
                Some(d) => Some(d.clone()),
                None => None,
            },
            due_date: self.due_date,
            completed: self.completed,
            created_at: self.created_at,
            updated_at: self.updated_at,
        }
    }
}

/// Project listings come newest first, by creation time.
impl ListOrder for Project {
    open spec fn spec_le(&self, other: &Self) -> bool {
        self.created_at >= other.created_at
    }

    proof fn lemma_total(a: &Self, b: &Self) {
    }

    proof fn lemma_trans(a: &Self, b: &Self, c: &Self) {
    }

    fn le(&self, other: &Self) -> bool {
        self.created_at >= other.created_at
    }
}

/// Milestone listings come by due date, earliest first, with undated
/// milestones last.
impl ListOrder for Milestone {
    open spec fn spec_le(&self, other: &Self) -> bool {
        match (self.due_date, other.due_date) {
            (Some(a), Some(b)) => a <= b,
            (Some(_), None) => true,
            (None, Some(_)) => false,
            (None, None) => true,
        }
    }

    proof fn lemma_total(a: &Self, b: &Self) {
    }

    proof fn lemma_trans(a: &Self, b: &Self, c: &Self) {
    }

    fn le(&self, other: &Self) -> bool {
        match (self.due_date, other.due_date) {
            (Some(a), Some(b)) => a <= b,
            (Some(_), None) => true,
            (None, Some(_)) => false,
            (None, None) => true,
        }
    }
}

/// Whether a membership row links this project and user.
pub open spec fn spec_is_member(
    members: Seq<ProjectMember>,
    project_id: u128,
    user_id: u128,
) -> bool {
    exists|i: int| 0 <= i < members.len()
        && members[i].project_id == project_id
        && members[i].user_id == user_id
}

/// Index of the project with the given identifier (meaningful only when
/// one exists; identifiers are unique in a well-formed store).
pub open spec fn project_idx(projects: Seq<Project>, id: u128) -> int {
    choose|i: int| 0 <= i < projects.len() && projects[i].id == id
}

/// In a store with unique identifiers, a contained project with the
/// given identifier sits at `project_idx`.
pub proof fn lemma_project_at_idx(projects: Seq<Project>, p: Project, id: u128)
    requires
        forall|i: int, j: int|
            0 <= i < j < projects.len() ==> projects[i].id != projects[j].id,
        projects.contains(p),
        p.id == id,
    ensures
        0 <= project_idx(projects, id) < projects.len(),
        projects[project_idx(projects, id)] == p,
{
    let k = choose|k: int| 0 <= k < projects.len() && projects[k] == p;
    assert(0 <= k < projects.len() && projects[k].id == id);
    let i = project_idx(projects, id);
    assert(0 <= i < projects.len() && projects[i].id == id);
    if i != k {
        if i < k {
            assert(projects[i].id != projects[k].id);
        } else {
            assert(projects[k].id != projects[i].id);
        }
    }
}

/// In-memory project store: the projects, membership and milestone
/// tables. Project identifiers are unique, as the primary key makes
/// them.
pub struct ProjectRepository {
    pub projects: Vec<Project>,
    pub members: Vec<ProjectMember>,
    pub milestones: Vec<Milestone>,
}

impl ProjectRepository {
    /// Store invariant: no two projects share an identifier.
    pub open spec fn wf(&self) -> bool {
        forall|i: int, j: int|
            0 <= i < j < self.projects@.len() ==> self.projects@[i].id != self.projects@[j].id
    }

    pub open spec fn spec_has_project(&self, id: u128) -> bool {
        exists|i: int| 0 <= i < self.projects@.len() && self.projects@[i].id == id
    }

    /// The user owns the project with this identifier.
    pub open spec fn spec_is_owner(&self, project_id: u128, user_id: u128) -> bool {
        exists|i: int| 0 <= i < self.projects@.len()
            && self.projects@[i].id == project_id
            && self.projects@[i].owner_id == user_id
    }

    /// The access relation: the project exists, and the user is its
    /// owner or appears in its membership rows.
    pub open spec fn spec_can_access(&self, project_id: u128, user_id: u128) -> bool {
        self.spec_is_owner(project_id, user_id) || (self.spec_has_project(project_id)
            && spec_is_member(self.members@, project_id, user_id))
    }

    pub fn new() -> (r: Self)
        ensures
            r.wf(),
            r.projects@.len() == 0,
            r.members@.len() == 0,
            r.milestones@.len() == 0,
    {
        ProjectRepository { projects: Vec::new(), members: Vec::new(), milestones: Vec::new() }
    }

    pub fn find_by_id(&self, id: u128) -> (r: Option<Project>)
        ensures
            r is Some <==> self.spec_has_project(id),
            r matches Some(p) ==> p.id == id && self.projects@.contains(p),
    {
        let n = self.projects.len();
        let mut i: usize = 0;
        while i < n
            invariant
                i <= n,
                n == self.projects@.len(),
                forall|j: int| 0 <= j < i ==> self.projects@[j].id != id,
            decreases n - i,
        {
            if self.projects[i].id == id {
                return Some(self.projects[i].clone());
            }
            i = i + 1;
        }
        None
    }

    /// Every project, newest first.
    pub fn find_all(&self) -> (r: Vec<Project>)
        ensures
            r@.to_multiset() == self.projects@.to_multiset(),
            listed_in_order(r@),
    {
        let n = self.projects.len();
        let mut out: Vec<Project> = Vec::new();
        let mut i: usize = 0;
        while i < n
            invariant
                i <= n,
                n == self.projects@.len(),
                out@ == self.projects@.subrange(0, i as int),
            decreases n - i,
        {
            out.push(self.projects[i].clone());
            proof {
                lemma_subrange_push(self.projects@, i as int);
            }
            i = i + 1;
        }
        proof {
            lemma_subrange_full(self.projects@);
        }
        sort_in_order(out)
    }

    /// Projects owned by the user, newest first.
    pub fn find_by_owner(&self, owner_id: u128) -> (r: Vec<Project>)
        ensures
            r@.to_multiset() == self.projects@.filter(
                |p: Project| p.owner_id == owner_id,
            ).to_multiset(),
            listed_in_order(r@),
    {
        let ghost pred = |p: Project| p.owner_id == owner_id;
        let n = self.projects.len();
        let mut out: Vec<Project> = Vec::new();
        let mut i: usize = 0;
        while i < n
            invariant
                i <= n,
                n == self.projects@.len(),
                out@ == self.projects@.subrange(0, i as int).filter(pred),
            decreases n - i,
        {
            if self.projects[i].owner_id == owner_id {
                out.push(self.projects[i].clone());
            }
            proof {
                lemma_subrange_push(self.projects@, i as int);
                lemma_filter_push(
                    self.projects@.subrange(0, i as int),
                    self.projects@[i as int],
                    pred,
                );
            }
            i = i + 1;
        }
        proof {
            lemma_subrange_full(self.projects@);
        }
        sort_in_order(out)
    }

    /// Whether a membership row links this project and user.
    pub fn is_member(&self, project_id: u128, user_id: u128) -> (r: bool)
        ensures
            r == spec_is_member(self.members@, project_id, user_id),
    {
        let n = self.members.len();
        let mut i: usize = 0;
        while i < n
            invariant
                i <= n,
                n == self.members@.len(),
                forall|j: int| 0 <= j < i ==> !(self.members@[j].project_id == project_id
                    && self.members@[j].user_id == user_id),
            decreases n - i,
        {
            if self.members[i].project_id == project_id && self.members[i].user_id == user_id {
                return true;
            }
            i = i + 1;
        }
        false
    }

    /// The union of owned and member projects, deduplicated and newest
    /// first: each accessible project appears exactly once, even when
    /// the user is both owner and member.
    pub fn find_accessible_by_user(&self, user_id: u128) -> (r: Vec<Project>)
        requires
            self.wf(),
        ensures
            r@.to_multiset() == self.projects@.filter(
                |p: Project| p.owner_id == user_id
                    || spec_is_member(self.members@, p.id, user_id),
            ).to_multiset(),
            listed_in_order(r@),
            forall|i: int, j: int| 0 <= i < j < r@.len() ==> r@[i].id != r@[j].id,
    {
        let ghost pred = |p: Project| p.owner_id == user_id
            || spec_is_member(self.members@, p.id, user_id);
        let n = self.projects.len();
        let mut out: Vec<Project> = Vec::new();
        let mut i: usize = 0;
        while i < n
            invariant
                i <= n,
                n == self.projects@.len(),
                out@ == self.projects@.subrange(0, i as int).filter(pred),
            decreases n - i,
        {
            if self.projects[i].owner_id == user_id
                || self.is_member(self.projects[i].id, user_id) {
                out.push(self.projects[i].clone());
            }
            proof {
                lemma_subrange_push(self.projects@, i as int);
                lemma_filter_push(
                    self.projects@.subrange(0, i as int),
                    self.projects@[i as int],
                    pred,
                );
            }
            i = i + 1;
        }
        proof {
            lemma_subrange_full(self.projects@);
            lemma_filter_unique_keys(self.projects@, pred, |p: Project| p.id);
        }
        let sorted = sort_in_order(out);
        proof {
            lemma_permutation_keeps_unique_keys(
                self.projects@.filter(pred),
                sorted@,
                |p: Project| p.id,
            );
        }
        sorted
    }

    /// Whether the user can access the project: it exists and the user
    /// is its owner or one of its members.
    pub fn can_user_access(&self, project_id: u128, user_id: u128) -> (r: bool)
        requires
            self.wf(),
        ensures
            r == self.spec_can_access(project_id, user_id),
    {
        let n = self.projects.len();
        let mut i: usize = 0;
        while i < n
            invariant
                i <= n,
                n == self.projects@.len(),
                forall|j: int| 0 <= j < i ==> self.projects@[j].id != project_id,
            decreases n - i,
        {
            if self.projects[i].id == project_id {
                proof {
                    assert forall|j: int|
                        0 <= j < self.projects@.len() && self.projects@[j].id == project_id
                        implies j == i as int by {
                        if j < i as int {
                            assert(self.projects@[j].id != self.projects@[i as int].id);
                        } else if j > i as int {
                            assert(self.projects@[i as int].id != self.projects@[j].id);
                        }
                    }
                }
                if self.projects[i].owner_id == user_id {
                    return true;
                }
                return self.is_member(project_id, user_id);
            }
            i = i + 1;
        }
        false
    }

    /// Whether the user owns the project.
    pub fn is_owner(&self, project_id: u128, user_id: u128) -> (r: bool)
        ensures
            r == self.spec_is_owner(project_id, user_id),
    {
        let n = self.projects.len();
        let mut i: usize = 0;
        while i < n
            invariant
                i <= n,
                n == self.projects@.len(),
                forall|j: int| 0 <= j < i ==> !(self.projects@[j].id == project_id
                    && self.projects@[j].owner_id == user_id),
            decreases n - i,
        {
            if self.projects[i].id == project_id && self.projects[i].owner_id == user_id {
                return true;
            }
            i = i + 1;
        }
        false
    }

    /// Inserts a project. A duplicate identifier is rejected as the
    /// primary key rejects it.
    pub fn create(&mut self, project: &Project) -> (r: Result<Project, DomainError>)
        requires
            old(self).wf(),
        ensures
            final(self).wf(),
            final(self).members@ == old(self).members@,
            final(self).milestones@ == old(self).milestones@,
            old(self).spec_has_project(project.id) ==> (r matches Err(e)
                && e matches DomainError::AlreadyExists(m)
                && m@ == "Resource already exists"@
                && final(self).projects@ == old(self).projects@),
            !old(self).spec_has_project(project.id) ==> (r matches Ok(p) && p == *project
                && final(self).projects@ == old(self).projects@.push(*project)),
    {
        let n = self.projects.len();
        let mut i: usize = 0;
        while i < n
            invariant
                i <= n,
                n == self.projects@.len(),
                forall|j: int| 0 <= j < i ==> self.projects@[j].id != project.id,
            decreases n - i,
        {
            if self.projects[i].id == project.id {
                return Err(DomainError::AlreadyExists(
                    String::from_str("Resource already exists"),
                ));
            }
            i = i + 1;
        }
        self.projects.push(project.clone());
        Ok(project.clone())
    }

    /// Replaces the stored project with the same identifier; a missing
    /// row is reported as not found.
    pub fn update(&mut self, project: &Project) -> (r: Result<Project, DomainError>)
        requires
            old(self).wf(),
        ensures
            final(self).wf(),
            final(self).members@ == old(self).members@,
            final(self).milestones@ == old(self).milestones@,
            !old(self).spec_has_project(project.id) ==> (r matches Err(e)
                && e matches DomainError::NotFound(m)
                && m@ == "Resource not found"@
                && final(self).projects@ == old(self).projects@),
            old(self).spec_has_project(project.id) ==> (r matches Ok(p) && p == *project
                && final(self).projects@ == old(self).projects@.update(
                project_idx(old(self).projects@, project.id),
                *project,
            )),
    {
        let n = self.projects.len();
        let mut i: usize = 0;
        while i < n
            invariant
                i <= n,
                n == self.projects@.len(),
                self.projects@ == old(self).projects@,
                self.members@ == old(self).members@,
                self.milestones@ == old(self).milestones@,
                forall|j: int| 0 <= j < i ==> self.projects@[j].id != project.id,
            decreases n - i,
        {
            if self.projects[i].id == project.id {
                proof {
                    lemma_project_at_idx(self.projects@, self.projects@[i as int], project.id);
                }
                self.projects.set(i, project.clone());
                proof {
                    assert forall|p: int, q: int|
                        0 <= p < q < self.projects@.len() implies self.projects@[p].id
                        != self.projects@[q].id by {
                        assert(old(self).projects@[p].id != old(self).projects@[q].id);
                    }
                }
                return Ok(project.clone());
            }
            i = i + 1;
        }
        Err(DomainError::NotFound(String::from_str("Resource not found")))
    }

    /// Deletes the project with this identifier; deleting a missing
    /// project is not an error.
    pub fn delete(&mut self, id: u128) -> (r: Result<(), DomainError>)
        requires
            old(self).wf(),
        ensures
            final(self).wf(),
            final(self).members@ == old(self).members@,
            final(self).milestones@ == old(self).milestones@,
            r is Ok,
            !old(self).spec_has_project(id) ==> final(self).projects@ == old(self).projects@,
            old(self).spec_has_project(id) ==> final(self).projects@
                == old(self).projects@.remove(project_idx(old(self).projects@, id)),
    {
        let n = self.projects.len();
        let mut i: usize = 0;
        while i < n
            invariant
                i <= n,
                n == self.projects@.len(),
                self.projects@ == old(self).projects@,
                self.members@ == old(self).members@,
                self.milestones@ == old(self).milestones@,
                forall|j: int| 0 <= j < i ==> self.projects@[j].id != id,
            decreases n - i,
        {
            if self.projects[i].id == id {
                proof {
                    lemma_project_at_idx(self.projects@, self.projects@[i as int], id);
                }
                self.projects.remove(i);
                proof {
                    assert forall|p: int, q: int|
                        0 <= p < q < self.projects@.len() implies self.projects@[p].id
                        != self.projects@[q].id by {
                        let op: int = if p < i { p } else { p + 1 };
                        let oq: int = if q < i { q } else { q + 1 };
                        assert(self.projects@[p] == old(self).projects@[op]);
                        assert(self.projects@[q] == old(self).projects@[oq]);
                    }
                }
                return Ok(());
            }
            i = i + 1;
        }
        Ok(())
    }

    /// Adds a membership row. A duplicate project-user pair is rejected
    /// as the unique key rejects it.
    pub fn add_member(&mut self, member: &ProjectMember) -> (r: Result<
        ProjectMember,
        DomainError,
    >)
        ensures
            final(self).projects@ == old(self).projects@,
            final(self).milestones@ == old(self).milestones@,
            spec_is_member(old(self).members@, member.project_id, member.user_id)
                ==> (r matches Err(e)
                && e matches DomainError::AlreadyExists(m)
                && m@ == "Resource already exists"@
                && final(self).members@ == old(self).members@),
            !spec_is_member(old(self).members@, member.project_id, member.user_id)
                ==> (r matches Ok(pm) && pm == *member
                && final(self).members@ == old(self).members@.push(*member)),
    {
        if self.is_member(member.project_id, member.user_id) {
            return Err(DomainError::AlreadyExists(
                String::from_str("Resource already exists"),
            ));
        }
        self.members.push(*member);
        Ok(*member)
    }

    /// Milestones of the project, by due date.
    pub fn find_milestones(&self, project_id: u128) -> (r: Vec<Milestone>)
        ensures
            r@.to_multiset() == self.milestones@.filter(
                |m: Milestone| m.project_id == project_id,
            ).to_multiset(),
            listed_in_order(r@),
    {
        let ghost pred = |m: Milestone| m.project_id == project_id;
        let n = self.milestones.len();
        let mut out: Vec<Milestone> = Vec::new();
        let mut i: usize = 0;
        while i < n
            invariant
                i <= n,
                n == self.milestones@.len(),
                out@ == self.milestones@.subrange(0, i as int).filter(pred),
            decreases n - i,
        {
            if self.milestones[i].project_id == project_id {
                out.push(self.milestones[i].clone());
            }
            proof {
                lemma_subrange_push(self.milestones@, i as int);
                lemma_filter_push(
                    self.milestones@.subrange(0, i as int),
                    self.milestones@[i as int],
                    pred,
                );
            }
            i = i + 1;
        }
        proof {
            lemma_subrange_full(self.milestones@);
        }
        sort_in_order(out)
    }
}

/// How a stored project and an update command combine into the updated
/// project. The owner never changes on this path.
pub open spec fn spec_project_updated(
    before: Project,
    cmd: UpdateProjectCommand,
    after: Project,
) -> bool {
    &&& after.id == before.id
    &&& after.owner_id == before.owner_id
    &&& after.created_at == before.created_at
    &&& after.name == (match cmd.name {
        Some(n) => n,
        None => before.name,
    })
    &&& after.description == (match cmd.description {
        Some(d) => Some(d),
        None => before.description,
    })
    &&& after.status == (match cmd.status {
        Some(s) => s,
        None => before.status,
    })
    &&& after.priority == (match cmd.priority {
        Some(p) => p,
        None => before.priority,
    })
    &&& after.start_date == (match cmd.start_date {
        Some(d) => Some(d),
        None => before.start_date,
    })
    &&& after.end_date == (match cmd.end_date {
        Some(d) => Some(d),
        None => before.end_date,
    })
    &&& after.budget == (match cmd.budget {
        Some(b) => Some(b),
        None => before.budget,
    })
}

/// Project use cases: list, access predicates, fetch, create with the
/// caller as owner, partial update, delete, and the project's
/// milestones.
pub struct ProjectAppService {
    pub project_repository: ProjectRepository,
}

impl ProjectAppService {
    pub fn new(project_repository: ProjectRepository) -> (r: Self)
        ensures
            r.project_repository == project_repository,
    {
        ProjectAppService { project_repository }
    }

    /// Every project, newest first; the callers reserve this for
    /// administrators.
    pub fn list_projects(&self) -> (r: Result<Vec<Project>, DomainError>)
        ensures
            r matches Ok(v) && v@.to_multiset()
                == self.project_repository.projects@.to_multiset(),
            r matches Ok(v) ==> listed_in_order(v@),
    {
        Ok(self.project_repository.find_all())
    }

    /// Projects the user owns or is a member of, each exactly once.
    pub fn list_accessible_projects(&self, user_id: u128) -> (r: Result<
        Vec<Project>,
        DomainError,
    >)
        requires
            self.project_repository.wf(),
        ensures
            r matches Ok(v) && v@.to_multiset() == self.project_repository.projects@.filter(
                |p: Project| p.owner_id == user_id
                    || spec_is_member(self.project_repository.members@, p.id, user_id),
            ).to_multiset(),
            r matches Ok(v) ==> listed_in_order(v@),
            r matches Ok(v) ==> forall|i: int, j: int|
                0 <= i < j < v@.len() ==> v@[i].id != v@[j].id,
    {
        Ok(self.project_repository.find_accessible_by_user(user_id))
    }

    pub fn can_user_access(&self, project_id: u128, user_id: u128) -> (r: Result<
        bool,
        DomainError,
    >)
        requires
            self.project_repository.wf(),
        ensures
            r matches Ok(b) && b == self.project_repository.spec_can_access(
                project_id,
                user_id,
            ),
    {
        Ok(self.project_repository.can_user_access(project_id, user_id))
    }

    pub fn is_owner(&self, project_id: u128, user_id: u128) -> (r: Result<bool, DomainError>)
        ensures
            r matches Ok(b) && b == self.project_repository.spec_is_owner(project_id, user_id),
    {
        Ok(self.project_repository.is_owner(project_id, user_id))
    }

    pub fn get_project(&self, id: u128) -> (r: Result<Project, DomainError>)
        ensures
            r is Ok <==> self.project_repository.spec_has_project(id),
            r matches Ok(p) ==> p.id == id && self.project_repository.projects@.contains(p),
            r matches Err(e) ==> (e matches DomainError::NotFound(m)
                && m@ == "Project not found"@),
    {
        match self.project_repository.find_by_id(id) {
            Some(p) => Ok(p),
            None => Err(DomainError::NotFound(String::from_str("Project not found"))),
        }
    }

    /// Creates a project owned by the calling user.
    pub fn create_project(&mut self, cmd: CreateProjectCommand, owner_id: u128) -> (r: Result<
        Project,
        DomainError,
    >)
        requires
            old(self).project_repository.wf(),
        ensures
            final(self).project_repository.wf(),
            final(self).project_repository.members@ == old(self).project_repository.members@,
            final(self).project_repository.milestones@
                == old(self).project_repository.milestones@,
            r matches Ok(p) ==> p.name@ == cmd.name@ && p.owner_id == owner_id
                && p.description == cmd.description
                && p.status == (match cmd.status {
                Some(s) => s,
                None => ProjectStatus::Planning,
            })
                && p.priority == (match cmd.priority {
                Some(pr) => pr,
                None => Priority::Medium,
            })
                && p.start_date == cmd.start_date && p.end_date == cmd.end_date
                && p.budget == cmd.budget
                && final(self).project_repository.projects@
                    == old(self).project_repository.projects@.push(p),
            r matches Err(e) ==> e is AlreadyExists
                && final(self).project_repository.projects@
                    == old(self).project_repository.projects@,
    {
        let project = Project::new(
            cmd.name,
            cmd.description,
            owner_id,
            cmd.status,
            cmd.priority,
            cmd.start_date,
            cmd.end_date,
            cmd.budget,
        );
        self.project_repository.create(&project)
    }

    /// Applies a partial update to an existing project.
    pub fn update_project(&mut self, id: u128, cmd: UpdateProjectCommand) -> (r: Result<
        Project,
        DomainError,
    >)
        requires
            old(self).project_repository.wf(),
        ensures
            final(self).project_repository.wf(),
            final(self).project_repository.members@ == old(self).project_repository.members@,
            final(self).project_repository.milestones@
                == old(self).project_repository.milestones@,
            !old(self).project_repository.spec_has_project(id) ==> (r matches Err(e)
                && e matches DomainError::NotFound(m)
                && m@ == "Project not found"@
                && final(self).project_repository.projects@
                    == old(self).project_repository.projects@),
            old(self).project_repository.spec_has_project(id) ==> (r matches Ok(p)
                && spec_project_updated(
                old(self).project_repository.projects@[project_idx(
                    old(self).project_repository.projects@,
                    id,
                )],
                cmd,
                p,
            )
                && final(self).project_repository.projects@
                    == old(self).project_repository.projects@.update(
                project_idx(old(self).project_repository.projects@, id),
                p,
            )),
    {
        let project_opt = self.project_repository.find_by_id(id);
        let mut project = match project_opt {
            Some(p) => p,
            None => {
                return Err(DomainError::NotFound(String::from_str("Project not found")));
            },
        };
        proof {
            lemma_project_at_idx(self.project_repository.projects@, project, id);
        }
        if let Some(name) = cmd.name {
            project.name = name;
        }
        if let Some(description) = cmd.description {
            project.description = Some(description);
        }
        if let Some(status) = cmd.status {
            project.update_status(status);
        }
        if let Some(priority) = cmd.priority {
            project.priority = priority;
        }
        if let Some(start_date) = cmd.start_date {
            project.start_date = Some(start_date);
        }
        if let Some(end_date) = cmd.end_date {
            project.end_date = Some(end_date);
        }
        if let Some(budget) = cmd.budget {
            project.budget = Some(budget);
        }
        self.project_repository.update(&project)
    }

    /// Deletes a project that exists; a missing one is reported as not
    /// found.
    pub fn delete_project(&mut self, id: u128) -> (r: Result<(), DomainError>)
        requires
            old(self).project_repository.wf(),
        ensures
            final(self).project_repository.wf(),
            final(self).project_repository.members@ == old(self).project_repository.members@,
            final(self).project_repository.milestones@
                == old(self).project_repository.milestones@,
            !old(self).project_repository.spec_has_project(id) ==> (r matches Err(e)
                && e matches DomainError::NotFound(m)
                && m@ == "Project not found"@
                && final(self).project_repository.projects@
                    == old(self).project_repository.projects@),
            old(self).project_repository.spec_has_project(id) ==> (r is Ok
                && final(self).project_repository.projects@
                    == old(self).project_repository.projects@.remove(
                project_idx(old(self).project_repository.projects@, id),
            )),
    {
        match self.project_repository.find_by_id(id) {
            Some(_) => {},
            None => {
                return Err(DomainError::NotFound(String::from_str("Project not found")));
            },
        }
        self.project_repository.delete(id)
    }

    /// Adds a user to the project's membership after checking that the
    /// project exists.
    pub fn add_member(&mut self, project_id: u128, user_id: u128) -> (r: Result<
        ProjectMember,
        DomainError,
    >)
        ensures
            final(self).project_repository.projects@ == old(self).project_repository.projects@,
            final(self).project_repository.milestones@
                == old(self).project_repository.milestones@,
            !old(self).project_repository.spec_has_project(project_id) ==> (r matches Err(e)
                && e matches DomainError::NotFound(m)
                && m@ == "Project not found"@
                && final(self).project_repository.members@
                    == old(self).project_repository.members@),
            old(self).project_repository.spec_has_project(project_id) && spec_is_member(
                old(self).project_repository.members@,
                project_id,
                user_id,
            ) ==> (r matches Err(e) && e is AlreadyExists
                && final(self).project_repository.members@
                    == old(self).project_repository.members@),
            old(self).project_repository.spec_has_project(project_id) && !spec_is_member(
                old(self).project_repository.members@,
                project_id,
                user_id,
            ) ==> (r matches Ok(pm) && pm.project_id == project_id && pm.user_id == user_id
                && final(self).project_repository.members@
                    == old(self).project_repository.members@.push(pm)),
    {
        match self.project_repository.find_by_id(project_id) {
            Some(_) => {},
            None => {
                return Err(DomainError::NotFound(String::from_str("Project not found")));
            },
        }
        let member = ProjectMember::new(project_id, user_id);
        self.project_repository.add_member(&member)
    }

    /// Tasks of a project that exists, read from the task store.
    pub fn get_project_tasks(&self, project_id: u128, tasks: &crate::task::TaskRepository) -> (r:
        Result<Vec<crate::task::Task>, DomainError>)
        ensures
            !self.project_repository.spec_has_project(project_id) ==> (r matches Err(e)
                && e matches DomainError::NotFound(m)
                && m@ == "Project not found"@),
            self.project_repository.spec_has_project(project_id) ==> (r matches Ok(v)
                && v@.to_multiset() == tasks.tasks@.filter(
                |t: crate::task::Task| t.project_id == project_id,
            ).to_multiset() && listed_in_order(v@)),
    {
        match self.project_repository.find_by_id(project_id) {
            Some(_) => {},
            None => {
                return Err(DomainError::NotFound(String::from_str("Project not found")));
            },
        }
        Ok(tasks.find_by_project(project_id))
    }

    /// Milestones of a project that exists.
    pub fn get_project_milestones(&self, project_id: u128) -> (r: Result<
        Vec<Milestone>,
        DomainError,
    >)
        ensures
            !self.project_repository.spec_has_project(project_id) ==> (r matches Err(e)
                && e matches DomainError::NotFound(m)
                && m@ == "Project not found"@),
            self.project_repository.spec_has_project(project_id) ==> (r matches Ok(v)
                && v@.to_multiset() == self.project_repository.milestones@.filter(
                |m: Milestone| m.project_id == project_id,
            ).to_multiset() && listed_in_order(v@)),
    {
        match self.project_repository.find_by_id(project_id) {
            Some(_) => {},
            None => {
                return Err(DomainError::NotFound(String::from_str("Project not found")));
            },
        }
        Ok(self.project_repository.find_milestones(project_id))
    }
}

} // verus!
