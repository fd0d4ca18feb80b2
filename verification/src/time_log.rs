//! Time logs: hours a user booked on a task on a given day, the
//! in-memory store and the time-log application service. Hours are
//! hundredths of an hour; dates are day numbers; listings come newest
//! date first, ties broken by later creation first.

use vstd::prelude::*;

use crate::error::DomainError;
use crate::fresh::{fresh_id, now_micros};
use crate::order::{listed_in_order, sort_in_order, ListOrder};
use crate::seqs::{lemma_filter_push, lemma_subrange_full, lemma_subrange_push};

verus! {

broadcast use vstd::seq_lib::group_to_multiset_ensures;

/// One booking of hours on a task. The three optional names are
/// display fields a storage join would fill; they are carried, not
/// interpreted.
#[derive(Debug)]
pub struct TimeLog {
    pub id: u128,
    pub task_id: u128,
    pub user_id: u128,
    pub hours: i64,
    pub date: i64,
    pub description: Option<String>,
    pub created_at: i64,
    pub updated_at: i64,
    pub task_name: Option<String>,
    pub project_name: Option<String>,
    pub user_name: Option<String>,
}

impl TimeLog {
    pub fn new(
        task_id: u128,
        user_id: u128,
        hours: i64,
        date: i64,
        description: Option<String>,
    ) -> (r: TimeLog)
        ensures
            r.task_id == task_id,
            r.user_id == user_id,
            r.hours == hours,
            r.date == date,
            r.description == description,
            r.created_at == r.updated_at,
            r.task_name is None,
            r.project_name is None,
            r.user_name is None,
    {
        let now = now_micros();
        TimeLog {
            id: fresh_id(),
            task_id,
            user_id,
            hours,
            date,
            description,
            created_at: now,
            updated_at: now,
            task_name: None,
            project_name: None,
            user_name: None,
        }
    }
}

impl Clone for TimeLog {
    fn clone(&self) -> (r: Self)
        ensures
            r == *self,
    {
        TimeLog {
            id: self.id,
            task_id: self.task_id,
            user_id: self.user_id,
            hours: self.hours,
            date: self.date,
            description: match &self.description {
                Some(d) => Some(d.clone()),
                None => None,
            },
            created_at: self.created_at,
            updated_at: self.updated_at,
            task_name: match &self.task_name {
                Some(d) => Some(d.clone()),
                None => None,
            },
            project_name: match &self.project_name {
                Some(d) => Some(d.clone()),
                None => None,
            },
            user_name: match &self.user_name {
                Some(d) => Some(d.clone()),
                None => None,
            },
        }
    }
}

/// Listings come newest first: a later date sorts first, and on equal
/// dates a later creation time sorts first.
impl ListOrder for TimeLog {
    open spec fn spec_le(&self, other: &Self) -> bool {
        self.date > other.date || (self.date == other.date
            && self.created_at >= other.created_at)
    }

    proof fn lemma_total(a: &Self, b: &Self) {
    }

    proof fn lemma_trans(a: &Self, b: &Self, c: &Self) {
    }

    fn le(&self, other: &Self) -> bool {
        self.date > other.date || (self.date == other.date
            && self.created_at >= other.created_at)
    }
}

/// The range filter of the listing queries: the user's logs, within
/// the given bounds where bounds are given.
pub open spec fn spec_in_range(
    l: TimeLog,
    user_id: u128,
    start_date: Option<i64>,
    end_date: Option<i64>,
) -> bool {
    &&& l.user_id == user_id
    &&& (match start_date {
        Some(s) => l.date >= s,
        None => true,
    })
    &&& (match end_date {
        Some(e) => l.date <= e,
        None => true,
    })
}

/// Index of the time log with the given identifier (meaningful only
/// when one exists; identifiers are unique in a well-formed store).
pub open spec fn time_log_idx(logs: Seq<TimeLog>, id: u128) -> int {
    choose|i: int| 0 <= i < logs.len() && logs[i].id == id
}

/// In a store with unique identifiers, a contained time log with the
/// given identifier sits at `time_log_idx`.
pub proof fn lemma_time_log_at_idx(logs: Seq<TimeLog>, l: TimeLog, id: u128)
    requires
        forall|i: int, j: int| 0 <= i < j < logs.len() ==> logs[i].id != logs[j].id,
        logs.contains(l),
        l.id == id,
    ensures
        0 <= time_log_idx(logs, id) < logs.len(),
        logs[time_log_idx(logs, id)] == l,
{
    let k = choose|k: int| 0 <= k < logs.len() && logs[k] == l;
    assert(0 <= k < logs.len() && logs[k].id == id);
    let i = time_log_idx(logs, id);
    assert(0 <= i < logs.len() && logs[i].id == id);
    if i != k {
        if i < k {
            assert(logs[i].id != logs[k].id);
        } else {
            assert(logs[k].id != logs[i].id);
        }
    }
}

/// In-memory time-log store. Identifiers are unique, as the primary
/// key makes them.
pub struct TimeLogRepository {
    pub time_logs: Vec<TimeLog>,
}

impl TimeLogRepository {
    /// Store invariant: no two time logs share an identifier.
    pub open spec fn wf(&self) -> bool {
        forall|i: int, j: int|
            0 <= i < j < self.time_logs@.len()
                ==> self.time_logs@[i].id != self.time_logs@[j].id
    }

    pub open spec fn spec_has_time_log(&self, id: u128) -> bool {
        exists|i: int| 0 <= i < self.time_logs@.len() && self.time_logs@[i].id == id
    }

    pub fn new() -> (r: Self)
        ensures
            r.wf(),
            r.time_logs@.len() == 0,
    {
        TimeLogRepository { time_logs: Vec::new() }
    }

    pub fn find_by_id(&self, id: u128) -> (r: Option<TimeLog>)
        ensures
            r is Some <==> self.spec_has_time_log(id),
            r matches Some(l) ==> l.id == id && self.time_logs@.contains(l),
    {
        let n = self.time_logs.len();
        let mut i: usize = 0;
        while i < n
            invariant
                i <= n,
                n == self.time_logs@.len(),
                forall|j: int| 0 <= j < i ==> self.time_logs@[j].id != id,
            decreases n - i,
        {
            if self.time_logs[i].id == id {
                return Some(self.time_logs[i].clone());
            }
            i = i + 1;
        }
        None
    }

    /// The user's logs within the optional date bounds, newest date
    /// first: exactly the filtered bookings, reordered.
    pub fn find_by_user(
        &self,
        user_id: u128,
        start_date: Option<i64>,
        end_date: Option<i64>,
    ) -> (r: Vec<TimeLog>)
        ensures
            r@.to_multiset() == self.time_logs@.filter(
                |l: TimeLog| spec_in_range(l, user_id, start_date, end_date),
            ).to_multiset(),
            listed_in_order(r@),
    {
        let ghost pred = |l: TimeLog| spec_in_range(l, user_id, start_date, end_date);
        let n = self.time_logs.len();
        let mut matched: Vec<TimeLog> = Vec::new();
        let mut i: usize = 0;
        while i < n
            invariant
                i <= n,
                n == self.time_logs@.len(),
                matched@ == self.time_logs@.subrange(0, i as int).filter(pred),
            decreases n - i,
        {
            let l = &self.time_logs[i];
            let after_start = match start_date {
                Some(s) => l.date >= s,
                None => true,
            };
            let before_end = match end_date {
                Some(e) => l.date <= e,
                None => true,
            };
            if l.user_id == user_id && after_start && before_end {
                matched.push(self.time_logs[i].clone());
            }
            proof {
                lemma_subrange_push(self.time_logs@, i as int);
                lemma_filter_push(
                    self.time_logs@.subrange(0, i as int),
                    self.time_logs@[i as int],
                    pred,
                );
            }
            i = i + 1;
        }
        proof {
            lemma_subrange_full(self.time_logs@);
        }
        sort_in_order(matched)
    }

    /// The task's logs, newest first.
    pub fn find_by_task(&self, task_id: u128) -> (r: Vec<TimeLog>)
        ensures
            r@.to_multiset() == self.time_logs@.filter(
                |l: TimeLog| l.task_id == task_id,
            ).to_multiset(),
            listed_in_order(r@),
    {
        let ghost pred = |l: TimeLog| l.task_id == task_id;
        let n = self.time_logs.len();
        let mut out: Vec<TimeLog> = Vec::new();
        let mut i: usize = 0;
        while i < n
            invariant
                i <= n,
                n == self.time_logs@.len(),
                out@ == self.time_logs@.subrange(0, i as int).filter(pred),
            decreases n - i,
        {
            if self.time_logs[i].task_id == task_id {
                out.push(self.time_logs[i].clone());
            }
            proof {
                lemma_subrange_push(self.time_logs@, i as int);
                lemma_filter_push(
                    self.time_logs@.subrange(0, i as int),
                    self.time_logs@[i as int],
                    pred,
                );
            }
            i = i + 1;
        }
        proof {
            lemma_subrange_full(self.time_logs@);
        }
        sort_in_order(out)
    }

    /// The user's logs between the two dates inclusive, newest date
    /// first.
    pub fn find_by_date_range(&self, user_id: u128, start_date: i64, end_date: i64) -> (r: Vec<
        TimeLog,
    >)
        ensures
            r@.to_multiset() == self.time_logs@.filter(
                |l: TimeLog| spec_in_range(l, user_id, Some(start_date), Some(end_date)),
            ).to_multiset(),
            listed_in_order(r@),
    {
        self.find_by_user(user_id, Some(start_date), Some(end_date))
    }

    /// Inserts a time log. A duplicate identifier is rejected as the
    /// primary key rejects it.
    pub fn create(&mut self, time_log: &TimeLog) -> (r: Result<TimeLog, DomainError>)
        requires
            old(self).wf(),
        ensures
            final(self).wf(),
            old(self).spec_has_time_log(time_log.id) ==> (r matches Err(e)
                && e matches DomainError::AlreadyExists(m)
                && m@ == "Resource already exists"@
                && final(self).time_logs@ == old(self).time_logs@),
            !old(self).spec_has_time_log(time_log.id) ==> (r matches Ok(l) && l == *time_log
                && final(self).time_logs@ == old(self).time_logs@.push(*time_log)),
    {
        let n = self.time_logs.len();
        let mut i: usize = 0;
        while i < n
            invariant
                i <= n,
                n == self.time_logs@.len(),
                forall|j: int| 0 <= j < i ==> self.time_logs@[j].id != time_log.id,
            decreases n - i,
        {
            if self.time_logs[i].id == time_log.id {
                return Err(DomainError::AlreadyExists(
                    String::from_str("Resource already exists"),
                ));
            }
            i = i + 1;
        }
        self.time_logs.push(time_log.clone());
        Ok(time_log.clone())
    }

    /// Replaces the stored time log with the same identifier; a missing
    /// row is reported as not found.
    pub fn update(&mut self, time_log: &TimeLog) -> (r: Result<TimeLog, DomainError>)
        requires
            old(self).wf(),
        ensures
            final(self).wf(),
            !old(self).spec_has_time_log(time_log.id) ==> (r matches Err(e)
                && e matches DomainError::NotFound(m)
                && m@ == "Resource not found"@
                && final(self).time_logs@ == old(self).time_logs@),
            old(self).spec_has_time_log(time_log.id) ==> (r matches Ok(l) && l == *time_log
                && final(self).time_logs@ == old(self).time_logs@.update(
                time_log_idx(old(self).time_logs@, time_log.id),
                *time_log,
            )),
    {
        let n = self.time_logs.len();
        let mut i: usize = 0;
        while i < n
            invariant
                i <= n,
                n == self.time_logs@.len(),
                self.time_logs@ == old(self).time_logs@,
                forall|j: int| 0 <= j < i ==> self.time_logs@[j].id != time_log.id,
            decreases n - i,
        {
            if self.time_logs[i].id == time_log.id {
                proof {
                    lemma_time_log_at_idx(self.time_logs@, self.time_logs@[i as int], time_log.id);
                }
                self.time_logs.set(i, time_log.clone());
                proof {
                    assert forall|p: int, q: int|
                        0 <= p < q < self.time_logs@.len() implies self.time_logs@[p].id
                        != self.time_logs@[q].id by {
                        assert(old(self).time_logs@[p].id != old(self).time_logs@[q].id);
                    }
                }
                return Ok(time_log.clone());
            }
            i = i + 1;
        }
        Err(DomainError::NotFound(String::from_str("Resource not found")))
    }

    /// Deletes the time log with this identifier; deleting a missing
    /// one is not an error.
    pub fn delete(&mut self, id: u128) -> (r: Result<(), DomainError>)
        requires
            old(self).wf(),
        ensures
            final(self).wf(),
            r is Ok,
            !old(self).spec_has_time_log(id) ==> final(self).time_logs@
                == old(self).time_logs@,
            old(self).spec_has_time_log(id) ==> final(self).time_logs@
                == old(self).time_logs@.remove(time_log_idx(old(self).time_logs@, id)),
    {
        let n = self.time_logs.len();
        let mut i: usize = 0;
        while i < n
            invariant
                i <= n,
                n == self.time_logs@.len(),
                self.time_logs@ == old(self).time_logs@,
                forall|j: int| 0 <= j < i ==> self.time_logs@[j].id != id,
            decreases n - i,
        {
            if self.time_logs[i].id == id {
                proof {
                    lemma_time_log_at_idx(self.time_logs@, self.time_logs@[i as int], id);
                }
                self.time_logs.remove(i);
                proof {
                    assert forall|p: int, q: int|
                        0 <= p < q < self.time_logs@.len() implies self.time_logs@[p].id
                        != self.time_logs@[q].id by {
                        let op: int = if p < i { p } else { p + 1 };
                        let oq: int = if q < i { q } else { q + 1 };
                        assert(self.time_logs@[p] == old(self).time_logs@[op]);
                        assert(self.time_logs@[q] == old(self).time_logs@[oq]);
                    }
                }
                return Ok(());
            }
            i = i + 1;
        }
        Ok(())
    }
}

/// Fields of a new time log, as the transport layer hands them over.
#[derive(Debug)]
pub struct CreateTimeLogDto {
    pub task_id: u128,
    pub user_id: u128,
    pub hours: i64,
    pub date: i64,
    pub description: Option<String>,
}

/// Partial update of a time log; `None` leaves a field unchanged.
#[derive(Debug)]
pub struct UpdateTimeLogDto {
    pub hours: Option<i64>,
    pub date: Option<i64>,
    pub description: Option<String>,
}

/// How a stored time log and an update combine into the updated log.
pub open spec fn spec_time_log_updated(
    before: TimeLog,
    dto: UpdateTimeLogDto,
    after: TimeLog,
) -> bool {
    &&& after.id == before.id
    &&& after.task_id == before.task_id
    &&& after.user_id == before.user_id
    &&& after.created_at == before.created_at
    &&& after.hours == (match dto.hours {
        Some(h) => h,
        None => before.hours,
    })
    &&& after.date == (match dto.date {
        Some(d) => d,
        None => before.date,
    })
    &&& after.description == (if dto.description is Some {
        dto.description
    } else {
        before.description
    })
}

/// Time-log use cases: fetch, the user/task/date-range listings,
/// create, partial update and delete.
pub struct TimeLogAppService {
    pub time_log_repository: TimeLogRepository,
}

impl TimeLogAppService {
    pub fn new(time_log_repository: TimeLogRepository) -> (r: Self)
        ensures
            r.time_log_repository == time_log_repository,
    {
        TimeLogAppService { time_log_repository }
    }

    pub fn get_time_log(&self, id: u128) -> (r: Result<Option<TimeLog>, DomainError>)
        ensures
            r matches Ok(o) && (o is Some <==> self.time_log_repository.spec_has_time_log(id)),
            r matches Ok(o) && o matches Some(l) ==> l.id == id
                && self.time_log_repository.time_logs@.contains(l),
    {
        Ok(self.time_log_repository.find_by_id(id))
    }

    pub fn get_user_time_logs(
        &self,
        user_id: u128,
        start_date: Option<i64>,
        end_date: Option<i64>,
    ) -> (r: Result<Vec<TimeLog>, DomainError>)
        ensures
            r matches Ok(v) && v@.to_multiset() == self.time_log_repository.time_logs@.filter(
                |l: TimeLog| spec_in_range(l, user_id, start_date, end_date),
            ).to_multiset(),
            r matches Ok(v) ==> listed_in_order(v@),
    {
        Ok(self.time_log_repository.find_by_user(user_id, start_date, end_date))
    }

    pub fn get_task_time_logs(&self, task_id: u128) -> (r: Result<Vec<TimeLog>, DomainError>)
        ensures
            r matches Ok(v) && v@.to_multiset() == self.time_log_repository.time_logs@.filter(
                |l: TimeLog| l.task_id == task_id,
            ).to_multiset(),
            r matches Ok(v) ==> listed_in_order(v@),
    {
        Ok(self.time_log_repository.find_by_task(task_id))
    }

    pub fn get_time_logs_by_date_range(
        &self,
        user_id: u128,
        start_date: i64,
        end_date: i64,
    ) -> (r: Result<Vec<TimeLog>, DomainError>)
        ensures
            r matches Ok(v) && v@.to_multiset() == self.time_log_repository.time_logs@.filter(
                |l: TimeLog| spec_in_range(l, user_id, Some(start_date), Some(end_date)),
            ).to_multiset(),
            r matches Ok(v) ==> listed_in_order(v@),
    {
        Ok(self.time_log_repository.find_by_date_range(user_id, start_date, end_date))
    }

    pub fn create_time_log(&mut self, dto: CreateTimeLogDto) -> (r: Result<
        TimeLog,
        DomainError,
    >)
        requires
            old(self).time_log_repository.wf(),
        ensures
            final(self).time_log_repository.wf(),
            r matches Ok(l) ==> l.task_id == dto.task_id && l.user_id == dto.user_id
                && l.hours == dto.hours && l.date == dto.date
                && l.description == dto.description
                && final(self).time_log_repository.time_logs@
                    == old(self).time_log_repository.time_logs@.push(l),
            r matches Err(e) ==> e is AlreadyExists
                && final(self).time_log_repository.time_logs@
                    == old(self).time_log_repository.time_logs@,
    {
        let time_log = TimeLog::new(dto.task_id, dto.user_id, dto.hours, dto.date, dto.description);
        self.time_log_repository.create(&time_log)
    }

    /// Applies a partial update to an existing time log.
    pub fn update_time_log(&mut self, id: u128, dto: UpdateTimeLogDto) -> (r: Result<
        TimeLog,
        DomainError,
    >)
        requires
            old(self).time_log_repository.wf(),
        ensures
            final(self).time_log_repository.wf(),
            !old(self).time_log_repository.spec_has_time_log(id) ==> (r matches Err(e)
                && e is NotFound
                && final(self).time_log_repository.time_logs@
                    == old(self).time_log_repository.time_logs@),
            old(self).time_log_repository.spec_has_time_log(id) ==> (r matches Ok(l)
                && spec_time_log_updated(
                old(self).time_log_repository.time_logs@[time_log_idx(
                    old(self).time_log_repository.time_logs@,
                    id,
                )],
                dto,
                l,
            )
                && final(self).time_log_repository.time_logs@
                    == old(self).time_log_repository.time_logs@.update(
                time_log_idx(old(self).time_log_repository.time_logs@, id),
                l,
            )),
    {
        let existing_opt = self.time_log_repository.find_by_id(id);
        let mut updated = match existing_opt {
            Some(l) => l,
            None => {
                return Err(DomainError::NotFound(
                    String::from_str("Time log with id ").concat(
                        crate::fresh::uuid_string(id).as_str(),
                    ).concat(" not found"),
                ));
            },
        };
        proof {
            lemma_time_log_at_idx(self.time_log_repository.time_logs@, updated, id);
        }
        if let Some(hours) = dto.hours {
            updated.hours = hours;
        }
        if let Some(date) = dto.date {
            updated.date = date;
        }
        if dto.description.is_some() {
            updated.description = dto.description;
        }
        updated.updated_at = now_micros();
        self.time_log_repository.update(&updated)
    }

    /// Deletes a time log that exists; a missing one is reported as not
    /// found.
    pub fn delete_time_log(&mut self, id: u128) -> (r: Result<(), DomainError>)
        requires
            old(self).time_log_repository.wf(),
        ensures
            final(self).time_log_repository.wf(),
            !old(self).time_log_repository.spec_has_time_log(id) ==> (r matches Err(e)
                && e is NotFound
                && final(self).time_log_repository.time_logs@
                    == old(self).time_log_repository.time_logs@),
            old(self).time_log_repository.spec_has_time_log(id) ==> (r is Ok
                && final(self).time_log_repository.time_logs@
                    == old(self).time_log_repository.time_logs@.remove(
                time_log_idx(old(self).time_log_repository.time_logs@, id),
            )),
    {
        match self.time_log_repository.find_by_id(id) {
            Some(_) => {},
            None => {
                return Err(DomainError::NotFound(
                    String::from_str("Time log with id ").concat(
                        crate::fresh::uuid_string(id).as_str(),
                    ).concat(" not found"),
                ));
            },
        }
        self.time_log_repository.delete(id)
    }
}

} // verus!
