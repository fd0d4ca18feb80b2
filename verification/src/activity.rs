//! Activity logs: an append-only audit trail, read by any
//! authenticated user. Listings resolve the acting user's and the
//! project's display names, as a storage join would; `details` carries
//! raw serialized text that this layer never interprets.

use vstd::prelude::*;

use crate::error::DomainError;
use crate::fresh::{fresh_id, now_micros};
use crate::order::{listed_in_order, sort_in_order, ListOrder};
use crate::project::{lemma_project_at_idx, project_idx, Project, ProjectRepository};
use crate::seqs::{lemma_filter_push, lemma_subrange_full, lemma_subrange_push};
use crate::user::{lemma_user_at_idx, spec_users_unique, user_idx, User};

verus! {

broadcast use vstd::seq_lib::group_to_multiset_ensures;

/// One audit record.
#[derive(Debug)]
pub struct ActivityLog {
    pub id: u128,
    pub user_id: Option<u128>,
    pub project_id: Option<u128>,
    pub action: String,
    pub entity_type: String,
    pub entity_id: u128,
    pub details: Option<String>,
    pub created_at: i64,
}

impl ActivityLog {
    pub fn new(
        user_id: Option<u128>,
        project_id: Option<u128>,
        action: String,
        entity_type: String,
        entity_id: u128,
        details: Option<String>,
    ) -> (r: ActivityLog)
        ensures
            r.user_id == user_id,
            r.project_id == project_id,
            r.action == action,
            r.entity_type == entity_type,
            r.entity_id == entity_id,
            r.details == details,
    {
        ActivityLog {
            id: fresh_id(),
            user_id,
            project_id,
            action,
            entity_type,
            entity_id,
            details,
            created_at: now_micros(),
        }
    }
}

impl Clone for ActivityLog {
    fn clone(&self) -> (r: Self)
        ensures
            r == *self,
    {
        ActivityLog {
            id: self.id,
            user_id: self.user_id,
            project_id: self.project_id,
            action: self.action.clone(),
            entity_type: self.entity_type.clone(),
            entity_id: self.entity_id,
            details: match &self.details {
                Some(d) => Some(d.clone()),
                None => None,
            },
            created_at: self.created_at,
        }
    }
}

/// Audit listings come newest first, by creation time.
impl ListOrder for ActivityLog {
    open spec fn spec_le(&self, other: &Self) -> bool {
        self.created_at >= other.created_at
    }

    proof fn lemma_total(a: &Self, b: &Self) {
    }

    proof fn lemma_trans(a: &Self, b: &Self, c: &Self) {
    }

    fn le(&self, other: &Self) -> bool {
        self.created_at >= other.created_at
    }
}

/// An audit record with the acting user's and project's display names
/// resolved.
#[derive(Debug)]
pub struct ActivityLogWithDetails {
    pub id: u128,
    pub user_id: Option<u128>,
    pub user_name: Option<String>,
    pub project_id: Option<u128>,
    pub project_name: Option<String>,
    pub action: String,
    pub entity_type: String,
    pub entity_id: u128,
    pub details: Option<String>,
    pub created_at: i64,
}

/// The display name of the user a record points at, if the record
/// names one and that user exists.
pub open spec fn spec_user_name(users: Seq<User>, id: Option<u128>) -> Option<String> {
    match id {
        None => None,
        Some(uid) => if exists|i: int| 0 <= i < users.len() && users[i].id == uid {
            Some(users[user_idx(users, uid)].name)
        } else {
            None
        },
    }
}

/// The display name of the project a record points at, if the record
/// names one and that project exists.
pub open spec fn spec_project_name(projects: Seq<Project>, id: Option<u128>) -> Option<String> {
    match id {
        None => None,
        Some(pid) => if exists|i: int| 0 <= i < projects.len() && projects[i].id == pid {
            Some(projects[project_idx(projects, pid)].name)
        } else {
            None
        },
    }
}

/// A record joined with the display names the given users and projects
/// yield for it.
pub open spec fn spec_with_details(
    log: ActivityLog,
    users: Seq<User>,
    projects: Seq<Project>,
) -> ActivityLogWithDetails {
    ActivityLogWithDetails {
        id: log.id,
        user_id: log.user_id,
        user_name: spec_user_name(users, log.user_id),
        project_id: log.project_id,
        project_name: spec_project_name(projects, log.project_id),
        action: log.action,
        entity_type: log.entity_type,
        entity_id: log.entity_id,
        details: log.details,
        created_at: log.created_at,
    }
}

fn find_user_name(users: &Vec<User>, id: u128) -> (r: Option<String>)
    requires
        spec_users_unique(users@),
    ensures
        r == spec_user_name(users@, Some(id)),
{
    let n = users.len();
    let mut i: usize = 0;
    while i < n
        invariant
            i <= n,
            n == users@.len(),
            forall|j: int| 0 <= j < i ==> users@[j].id != id,
        decreases n - i,
    {
        if users[i].id == id {
            proof {
                lemma_user_at_idx(users@, id);
            }
            return Some(users[i].name.clone());
        }
        i = i + 1;
    }
    None
}

fn find_project_name(projects: &ProjectRepository, id: u128) -> (r: Option<String>)
    requires
        projects.wf(),
    ensures
        r == spec_project_name(projects.projects@, Some(id)),
{
    let n = projects.projects.len();
    let mut i: usize = 0;
    while i < n
        invariant
            i <= n,
            n == projects.projects@.len(),
            forall|j: int| 0 <= j < i ==> projects.projects@[j].id != id,
        decreases n - i,
    {
        if projects.projects[i].id == id {
            proof {
                lemma_project_at_idx(
                    projects.projects@,
                    projects.projects@[i as int],
                    id,
                );
            }
            return Some(projects.projects[i].name.clone());
        }
        i = i + 1;
    }
    None
}

/// Joins one record with its display names.
fn with_details(
    log: &ActivityLog,
    users: &Vec<User>,
    projects: &ProjectRepository,
) -> (r: ActivityLogWithDetails)
    requires
        spec_users_unique(users@),
        projects.wf(),
    ensures
        r == spec_with_details(*log, users@, projects.projects@),
{
    let user_name = match log.user_id {
        Some(uid) => find_user_name(users, uid),
        None => None,
    };
    let project_name = match log.project_id {
        Some(pid) => find_project_name(projects, pid),
        None => None,
    };
    ActivityLogWithDetails {
        id: log.id,
        user_id: log.user_id,
        user_name,
        project_id: log.project_id,
        project_name,
        action: log.action.clone(),
        entity_type: log.entity_type.clone(),
        entity_id: log.entity_id,
        details: match &log.details {
            Some(d) => Some(d.clone()),
            None => None,
        },
        created_at: log.created_at,
    }
}

/// In-memory activity-log store. Identifiers are unique, as the
/// primary key makes them; listings come newest first.
pub struct ActivityLogRepository {
    pub activity_logs: Vec<ActivityLog>,
}

impl ActivityLogRepository {
    /// Store invariant: no two records share an identifier.
    pub open spec fn wf(&self) -> bool {
        forall|i: int, j: int|
            0 <= i < j < self.activity_logs@.len()
                ==> self.activity_logs@[i].id != self.activity_logs@[j].id
    }

    pub fn new() -> (r: Self)
        ensures
            r.wf(),
            r.activity_logs@.len() == 0,
    {
        ActivityLogRepository { activity_logs: Vec::new() }
    }

    /// A page of all records, newest first: `limit` records starting
    /// at `offset` of the newest-first arrangement, each joined with
    /// its display names.
    pub fn find_all(
        &self,
        users: &Vec<User>,
        projects: &ProjectRepository,
        limit: usize,
        offset: usize,
    ) -> (r: Vec<ActivityLogWithDetails>)
        requires
            spec_users_unique(users@),
            projects.wf(),
        ensures
            (exists|g: Seq<ActivityLog>| {
                &&& g.to_multiset() == self.activity_logs@.to_multiset()
                &&& listed_in_order(g)
                &&& ({
                    let total = g.len() as int;
                    let first = if offset <= total {
                        offset as int
                    } else {
                        total
                    };
                    let cnt = if limit <= total - first {
                        limit as int
                    } else {
                        total - first
                    };
                    &&& r@.len() == cnt
                    &&& forall|k: int| 0 <= k < cnt ==> #[trigger] r@[k] == spec_with_details(
                        g[first + k],
                        users@,
                        projects.projects@,
                    )
                })
            }),
    {
        let n = self.activity_logs.len();
        let mut all: Vec<ActivityLog> = Vec::new();
        let mut i: usize = 0;
        while i < n
            invariant
                i <= n,
                n == self.activity_logs@.len(),
                all@ == self.activity_logs@.subrange(0, i as int),
            decreases n - i,
        {
            all.push(self.activity_logs[i].clone());
            proof {
                lemma_subrange_push(self.activity_logs@, i as int);
            }
            i = i + 1;
        }
        proof {
            lemma_subrange_full(self.activity_logs@);
        }
        let sorted = sort_in_order(all);
        let ghost g = sorted@;
        let total = sorted.len();
        let first = if offset <= total {
            offset
        } else {
            total
        };
        let cnt = if limit <= total - first {
            limit
        } else {
            total - first
        };
        let mut out: Vec<ActivityLogWithDetails> = Vec::new();
        let mut k: usize = 0;
        while k < cnt
            invariant
                k <= cnt,
                first + cnt <= total,
                total == g.len(),
                sorted@ == g,
                out@.len() == k,
                forall|q: int| 0 <= q < k ==> #[trigger] out@[q] == spec_with_details(
                    g[first + q],
                    users@,
                    projects.projects@,
                ),
            decreases cnt - k,
        {
            out.push(with_details(&sorted[first + k], users, projects));
            k = k + 1;
        }
        out
    }

    /// Up to `limit` of the project's records, newest first, joined
    /// with display names.
    pub fn find_by_project(
        &self,
        users: &Vec<User>,
        projects: &ProjectRepository,
        project_id: u128,
        limit: usize,
    ) -> (r: Vec<ActivityLogWithDetails>)
        requires
            spec_users_unique(users@),
            projects.wf(),
        ensures
            (exists|g: Seq<ActivityLog>| {
                &&& g.to_multiset() == self.activity_logs@.filter(
                    |l: ActivityLog| l.project_id == Some(project_id),
                ).to_multiset()
                &&& listed_in_order(g)
                &&& ({
                    let cnt = if limit <= g.len() {
                        limit as int
                    } else {
                        g.len() as int
                    };
                    &&& r@.len() == cnt
                    &&& forall|k: int| 0 <= k < cnt ==> #[trigger] r@[k] == spec_with_details(
                        g[k],
                        users@,
                        projects.projects@,
                    )
                })
            }),
    {
        let ghost pred = |l: ActivityLog| l.project_id == Some(project_id);
        let n = self.activity_logs.len();
        let mut matched: Vec<ActivityLog> = Vec::new();
        let mut i: usize = 0;
        while i < n
            invariant
                i <= n,
                n == self.activity_logs@.len(),
                matched@ == self.activity_logs@.subrange(0, i as int).filter(pred),
            decreases n - i,
        {
            let is_match = match self.activity_logs[i].project_id {
                Some(pid) => pid == project_id,
                None => false,
            };
            if is_match {
                matched.push(self.activity_logs[i].clone());
            }
            proof {
                lemma_subrange_push(self.activity_logs@, i as int);
                lemma_filter_push(
                    self.activity_logs@.subrange(0, i as int),
                    self.activity_logs@[i as int],
                    pred,
                );
            }
            i = i + 1;
        }
        proof {
            lemma_subrange_full(self.activity_logs@);
        }
        let sorted = sort_in_order(matched);
        let ghost g = sorted@;
        let cnt = if limit <= sorted.len() {
            limit
        } else {
            sorted.len()
        };
        let mut out: Vec<ActivityLogWithDetails> = Vec::new();
        let mut k: usize = 0;
        while k < cnt
            invariant
                k <= cnt,
                cnt <= g.len(),
                sorted@ == g,
                out@.len() == k,
                forall|q: int| 0 <= q < k ==> #[trigger] out@[q] == spec_with_details(
                    g[q],
                    users@,
                    projects.projects@,
                ),
            decreases cnt - k,
        {
            out.push(with_details(&sorted[k], users, projects));
            k = k + 1;
        }
        out
    }

    /// Up to `limit` of the acting user's records, newest first, joined
    /// with display names.
    pub fn find_by_user(
        &self,
        users: &Vec<User>,
        projects: &ProjectRepository,
        user_id: u128,
        limit: usize,
    ) -> (r: Vec<ActivityLogWithDetails>)
        requires
            spec_users_unique(users@),
            projects.wf(),
        ensures
            (exists|g: Seq<ActivityLog>| {
                &&& g.to_multiset() == self.activity_logs@.filter(
                    |l: ActivityLog| l.user_id == Some(user_id),
                ).to_multiset()
                &&& listed_in_order(g)
                &&& ({
                    let cnt = if limit <= g.len() {
                        limit as int
                    } else {
                        g.len() as int
                    };
                    &&& r@.len() == cnt
                    &&& forall|k: int| 0 <= k < cnt ==> #[trigger] r@[k] == spec_with_details(
                        g[k],
                        users@,
                        projects.projects@,
                    )
                })
            }),
    {
        let ghost pred = |l: ActivityLog| l.user_id == Some(user_id);
        let n = self.activity_logs.len();
        let mut matched: Vec<ActivityLog> = Vec::new();
        let mut i: usize = 0;
        while i < n
            invariant
                i <= n,
                n == self.activity_logs@.len(),
                matched@ == self.activity_logs@.subrange(0, i as int).filter(pred),
            decreases n - i,
        {
            let is_match = match self.activity_logs[i].user_id {
                Some(uid) => uid == user_id,
                None => false,
            };
            if is_match {
                matched.push(self.activity_logs[i].clone());
            }
            proof {
                lemma_subrange_push(self.activity_logs@, i as int);
                lemma_filter_push(
                    self.activity_logs@.subrange(0, i as int),
                    self.activity_logs@[i as int],
                    pred,
                );
            }
            i = i + 1;
        }
        proof {
            lemma_subrange_full(self.activity_logs@);
        }
        let sorted = sort_in_order(matched);
        let ghost g = sorted@;
        let cnt = if limit <= sorted.len() {
            limit
        } else {
            sorted.len()
        };
        let mut out: Vec<ActivityLogWithDetails> = Vec::new();
        let mut k: usize = 0;
        while k < cnt
            invariant
                k <= cnt,
                cnt <= g.len(),
                sorted@ == g,
                out@.len() == k,
                forall|q: int| 0 <= q < k ==> #[trigger] out@[q] == spec_with_details(
                    g[q],
                    users@,
                    projects.projects@,
                ),
            decreases cnt - k,
        {
            out.push(with_details(&sorted[k], users, projects));
            k = k + 1;
        }
        out
    }

    /// Appends a record. A duplicate identifier is rejected as the
    /// primary key rejects it.
    pub fn create(&mut self, log: &ActivityLog) -> (r: Result<ActivityLog, DomainError>)
        requires
            old(self).wf(),
        ensures
            final(self).wf(),
            (exists|i: int| 0 <= i < old(self).activity_logs@.len()
                && old(self).activity_logs@[i].id == log.id) ==> (r matches Err(e)
                && e is AlreadyExists
                && final(self).activity_logs@ == old(self).activity_logs@),
            !(exists|i: int| 0 <= i < old(self).activity_logs@.len()
                && old(self).activity_logs@[i].id == log.id) ==> (r matches Ok(l) && l == *log
                && final(self).activity_logs@ == old(self).activity_logs@.push(*log)),
    {
        let n = self.activity_logs.len();
        let mut i: usize = 0;
        while i < n
            invariant
                i <= n,
                n == self.activity_logs@.len(),
                forall|j: int| 0 <= j < i ==> self.activity_logs@[j].id != log.id,
            decreases n - i,
        {
            if self.activity_logs[i].id == log.id {
                return Err(DomainError::AlreadyExists(
                    String::from_str("Resource already exists"),
                ));
            }
            i = i + 1;
        }
        self.activity_logs.push(log.clone());
        Ok(log.clone())
    }

    /// How many records the store holds.
    pub fn count(&self) -> (r: usize)
        ensures
            r == self.activity_logs@.len(),
    {
        self.activity_logs.len()
    }
}

/// Activity-log use cases: paged listing with the default page size of
/// 50 and the cap of 100, the per-project and per-user views, and the
/// total count. Negative paging values are treated as zero.
pub struct ActivityAppService {
    pub activity_repository: ActivityLogRepository,
}

impl ActivityAppService {
    pub fn new(activity_repository: ActivityLogRepository) -> (r: Self)
        ensures
            r.activity_repository == activity_repository,
    {
        ActivityAppService { activity_repository }
    }

    /// The effective page size: the given limit capped at 100, 50 when
    /// none is given, zero when negative.
    pub open spec fn spec_effective_limit(limit: Option<i64>) -> int {
        let l = match limit {
            Some(l) => l,
            None => 50,
        };
        if l < 0 {
            0
        } else if l > 100 {
            100
        } else {
            l as int
        }
    }

    /// The effective offset: the given one, zero when missing or
    /// negative.
    pub open spec fn spec_effective_offset(offset: Option<i64>) -> int {
        let o = match offset {
            Some(o) => o,
            None => 0,
        };
        if o < 0 {
            0
        } else {
            o as int
        }
    }

    fn effective_limit(limit: Option<i64>) -> (r: usize)
        ensures
            r == Self::spec_effective_limit(limit),
    {
        let l: i64 = match limit {
            Some(l) => l,
            None => 50,
        };
        if l < 0 {
            0
        } else if l > 100 {
            100
        } else {
            l as usize
        }
    }

    /// A page of the audit trail.
    pub fn list_activities(
        &self,
        users: &Vec<User>,
        projects: &ProjectRepository,
        limit: Option<i64>,
        offset: Option<i64>,
    ) -> (r: Result<Vec<ActivityLogWithDetails>, DomainError>)
        requires
            spec_users_unique(users@),
            projects.wf(),
        ensures
            r matches Ok(v) && (exists|g: Seq<ActivityLog>| {
                &&& g.to_multiset() == self.activity_repository.activity_logs@.to_multiset()
                &&& listed_in_order(g)
                &&& ({
                    let total = g.len() as int;
                    let first = if Self::spec_effective_offset(offset) <= total {
                        Self::spec_effective_offset(offset)
                    } else {
                        total
                    };
                    let cnt = if Self::spec_effective_limit(limit) <= total - first {
                        Self::spec_effective_limit(limit)
                    } else {
                        total - first
                    };
                    &&& v@.len() == cnt
                    &&& forall|k: int| 0 <= k < cnt ==> #[trigger] v@[k] == spec_with_details(
                        g[first + k],
                        users@,
                        projects.projects@,
                    )
                })
            }),
    {
        let limit_eff = Self::effective_limit(limit);
        let total = self.activity_repository.count();
        let o: i64 = match offset {
            Some(o) => o,
            None => 0,
        };
        let offset_eff: usize = if o < 0 {
            0
        } else if o as u64 >= total as u64 {
            total
        } else {
            o as usize
        };
        let v = self.activity_repository.find_all(users, projects, limit_eff, offset_eff);
        proof {
            let logs = self.activity_repository.activity_logs@;
            assert forall|g: Seq<ActivityLog>| g.to_multiset() == logs.to_multiset()
                implies g.len() == logs.len() by {
                assert(g.len() == g.to_multiset().len());
                assert(logs.len() == logs.to_multiset().len());
            }
        }
        Ok(v)
    }

    /// Up to the effective limit of the project's records.
    pub fn get_activities_by_project(
        &self,
        users: &Vec<User>,
        projects: &ProjectRepository,
        project_id: u128,
        limit: Option<i64>,
    ) -> (r: Result<Vec<ActivityLogWithDetails>, DomainError>)
        requires
            spec_users_unique(users@),
            projects.wf(),
        ensures
            r matches Ok(v) && (exists|g: Seq<ActivityLog>| {
                &&& g.to_multiset() == self.activity_repository.activity_logs@.filter(
                    |l: ActivityLog| l.project_id == Some(project_id),
                ).to_multiset()
                &&& listed_in_order(g)
                &&& ({
                    let cnt = if Self::spec_effective_limit(limit) <= g.len() {
                        Self::spec_effective_limit(limit)
                    } else {
                        g.len() as int
                    };
                    &&& v@.len() == cnt
                    &&& forall|k: int| 0 <= k < cnt ==> #[trigger] v@[k] == spec_with_details(
                        g[k],
                        users@,
                        projects.projects@,
                    )
                })
            }),
    {
        let limit_eff = Self::effective_limit(limit);
        Ok(self.activity_repository.find_by_project(users, projects, project_id, limit_eff))
    }

    /// Up to the effective limit of the acting user's records.
    pub fn get_activities_by_user(
        &self,
        users: &Vec<User>,
        projects: &ProjectRepository,
        user_id: u128,
        limit: Option<i64>,
    ) -> (r: Result<Vec<ActivityLogWithDetails>, DomainError>)
        requires
            spec_users_unique(users@),
            projects.wf(),
        ensures
            r matches Ok(v) && (exists|g: Seq<ActivityLog>| {
                &&& g.to_multiset() == self.activity_repository.activity_logs@.filter(
                    |l: ActivityLog| l.user_id == Some(user_id),
                ).to_multiset()
                &&& listed_in_order(g)
                &&& ({
                    let cnt = if Self::spec_effective_limit(limit) <= g.len() {
                        Self::spec_effective_limit(limit)
                    } else {
                        g.len() as int
                    };
                    &&& v@.len() == cnt
                    &&& forall|k: int| 0 <= k < cnt ==> #[trigger] v@[k] == spec_with_details(
                        g[k],
                        users@,
                        projects.projects@,
                    )
                })
            }),
    {
        let limit_eff = Self::effective_limit(limit);
        Ok(self.activity_repository.find_by_user(users, projects, user_id, limit_eff))
    }

    pub fn count_activities(&self) -> (r: Result<usize, DomainError>)
        ensures
            r matches Ok(c) && c == self.activity_repository.activity_logs@.len(),
    {
        Ok(self.activity_repository.count())
    }
}

} // verus!
