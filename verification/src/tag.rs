//! Tags: label entities, their links to tasks, the in-memory tag store
//! and the tag application service. Tags carry no ownership: any
//! authenticated principal may read and write them; the one rule is
//! case-sensitive name uniqueness, enforced before insert.

use vstd::prelude::*;

use crate::commands::{CreateTagCommand, UpdateTagCommand};
use crate::error::DomainError;
use crate::fresh::{fresh_id, now_micros};
use crate::order::{listed_in_order, sort_in_order, ListOrder};
use crate::seqs::{lemma_filter_push, lemma_subrange_full, lemma_subrange_push};
use crate::text::{lemma_str_le_total, lemma_str_le_trans, spec_str_le, str_eq, str_le};

verus! {

/// A label with a display color. Timestamps are microseconds since the
/// Unix epoch.
#[derive(Debug)]
pub struct Tag {
    pub id: u128,
    pub name: String,
    pub color: String,
    pub description: Option<String>,
    pub created_at: i64,
    pub updated_at: i64,
}

impl Tag {
    /// A fresh tag with a generated identifier; a missing color falls
    /// back to the default gray.
    pub fn new(name: String, color: Option<String>, description: Option<String>) -> (r: Tag)
        ensures
            r.name == name,
            (color matches Some(c) ==> r.color == c),
            (color is None ==> r.color@ == "#6b7280"@),
            r.description == description,
            r.created_at == r.updated_at,
    {
        let now = now_micros();
        Tag {
            id: fresh_id(),
            name,
            color: match color {
                Some(c) => c,
                None => String::from_str("#6b7280"),
            },
            description,
            created_at: now,
            updated_at: now,
        }
    }

    /// Partial update: a `None` field is left unchanged; a `Some`
    /// description replaces the old one (it is never cleared here).
    pub fn update(
        &mut self,
        name: Option<String>,
        color: Option<String>,
        description: Option<String>,
    )
        ensures
            final(self).id == old(self).id,
            final(self).created_at == old(self).created_at,
            final(self).name == (match name {
                Some(n) => n,
                None => old(self).name,
            }),
            final(self).color == (match color {
                Some(c) => c,
                None => old(self).color,
            }),
            final(self).description == (if description is Some {
                description
            } else {
                old(self).description
            }),
    {
        if let Some(n) = name {
            self.name = n;
        }
        if let Some(c) = color {
            self.color = c;
        }
        if description.is_some() {
            self.description = description;
        }
        self.updated_at = now_micros();
    }
}

impl Clone for Tag {
    fn clone(&self) -> (r: Self)
        ensures
            r == *self,
    {
        Tag {
            id: self.id,
            name: self.name.clone(),
            color: self.color.clone(),
            description: match &self.description {
                Some(d) => Some(d.clone()),
                None => None,
            },
            created_at: self.created_at,
            updated_at: self.updated_at,
        }
    }
}

/// Association row between a task and a tag.
#[derive(Clone, Copy, Debug, PartialEq, Eq, Structural)]
pub struct TaskTag {
    pub id: u128,
    pub task_id: u128,
    pub tag_id: u128,
    pub created_at: i64,
}

impl TaskTag {
    pub fn new(task_id: u128, tag_id: u128) -> (r: TaskTag)
        ensures
            r.task_id == task_id,
            r.tag_id == tag_id,
    {
        TaskTag { id: fresh_id(), task_id, tag_id, created_at: now_micros() }
    }
}

/// Tag listings come in name order (ascending, by code point).
impl ListOrder for Tag {
    open spec fn spec_le(&self, other: &Self) -> bool {
        spec_str_le(self.name@, other.name@)
    }

    proof fn lemma_total(a: &Self, b: &Self) {
        lemma_str_le_total(a.name@, b.name@);
    }

    proof fn lemma_trans(a: &Self, b: &Self, c: &Self) {
        lemma_str_le_trans(a.name@, b.name@, c.name@);
    }

    fn le(&self, other: &Self) -> bool {
        str_le(self.name.as_str(), other.name.as_str())
    }
}

/// Whether some tag in the sequence has exactly this name
/// (case-sensitive).
pub open spec fn tag_name_exists(tags: Seq<Tag>, name: Seq<char>) -> bool {
    exists|i: int| 0 <= i < tags.len() && tags[i].name@ == name
}

/// The first tag in the sequence with exactly this name, if any: the
/// lookup the store performs before the uniqueness check.
pub open spec fn spec_find_by_name(tags: Seq<Tag>, name: Seq<char>) -> Option<Tag>
    decreases tags.len(),
{
    if tags.len() == 0 {
        None
    } else if tags[0].name@ == name {
        Some(tags[0])
    } else {
        spec_find_by_name(tags.drop_first(), name)
    }
}

/// Index of the tag with the given identifier (meaningful only when one
/// exists; identifiers are unique in a well-formed store).
pub open spec fn tag_idx(tags: Seq<Tag>, id: u128) -> int {
    choose|i: int| 0 <= i < tags.len() && tags[i].id == id
}

proof fn lemma_find_by_name_at(tags: Seq<Tag>, name: Seq<char>, i: int)
    requires
        0 <= i < tags.len(),
        tags[i].name@ == name,
        forall|j: int| 0 <= j < i ==> tags[j].name@ != name,
    ensures
        spec_find_by_name(tags, name) == Some(tags[i]),
    decreases i,
{
    if i > 0 {
        assert(forall|j: int| 0 <= j < i - 1 ==> tags.drop_first()[j] == tags[j + 1]);
        lemma_find_by_name_at(tags.drop_first(), name, i - 1);
    }
}

proof fn lemma_find_by_name_none(tags: Seq<Tag>, name: Seq<char>)
    requires
        forall|j: int| 0 <= j < tags.len() ==> tags[j].name@ != name,
    ensures
        spec_find_by_name(tags, name) is None,
    decreases tags.len(),
{
    if tags.len() > 0 {
        lemma_find_by_name_none(tags.drop_first(), name);
    }
}

/// The name lookup succeeds exactly when a tag of that name exists, and
/// then returns a tag of the store with that name.
pub proof fn lemma_find_by_name_exists(tags: Seq<Tag>, name: Seq<char>)
    ensures
        (spec_find_by_name(tags, name) is Some) <==> tag_name_exists(tags, name),
        spec_find_by_name(tags, name) matches Some(t) ==> tags.contains(t) && t.name@ == name,
    decreases tags.len(),
{
    if tags.len() > 0 {
        lemma_find_by_name_exists(tags.drop_first(), name);
        if tags[0].name@ != name {
            match spec_find_by_name(tags.drop_first(), name) {
                Some(t) => {
                    let j = choose|j: int|
                        0 <= j < tags.drop_first().len() && tags.drop_first()[j] == t;
                    assert(tags[j + 1] == t);
                },
                None => {},
            }
            if tag_name_exists(tags, name) {
                let i = choose|i: int| 0 <= i < tags.len() && tags[i].name@ == name;
                assert(tags.drop_first()[i - 1] == tags[i]);
            }
        }
    }
}

/// In a store with unique identifiers, a contained tag with the given
/// identifier sits at `tag_idx`.
pub proof fn lemma_tag_at_idx(tags: Seq<Tag>, t: Tag, id: u128)
    requires
        forall|i: int, j: int| 0 <= i < j < tags.len() ==> tags[i].id != tags[j].id,
        tags.contains(t),
        t.id == id,
    ensures
        0 <= tag_idx(tags, id) < tags.len(),
        tags[tag_idx(tags, id)] == t,
        tags[tag_idx(tags, id)].id == id,
{
    let k = choose|k: int| 0 <= k < tags.len() && tags[k] == t;
    assert(0 <= k < tags.len() && tags[k].id == id);
    let i = tag_idx(tags, id);
    assert(0 <= i < tags.len() && tags[i].id == id);
    if i != k {
        if i < k {
            assert(tags[i].id != tags[k].id);
        } else {
            assert(tags[k].id != tags[i].id);
        }
    }
}

/// How replacing a task's tag links rewrites the association rows: the
/// rows of other tasks are kept in order, then one fresh row per given
/// tag follows, in order.
pub open spec fn spec_set_task_tags(
    before: Seq<TaskTag>,
    after: Seq<TaskTag>,
    task_id: u128,
    tag_ids: Seq<u128>,
) -> bool {
    let kept = before.filter(|tt: TaskTag| tt.task_id != task_id);
    &&& after.len() == kept.len() + tag_ids.len()
    &&& after.subrange(0, kept.len() as int) == kept
    &&& forall|k: int| 0 <= k < tag_ids.len()
        ==> (#[trigger] after[kept.len() + k].task_id == task_id
        && after[kept.len() + k].tag_id == tag_ids[k])
}

/// Whether the association rows link the given task to the given tag.
pub open spec fn spec_task_has_tag(task_tags: Seq<TaskTag>, task_id: u128, tag_id: u128) -> bool {
    exists|i: int| 0 <= i < task_tags.len()
        && task_tags[i].task_id == task_id
        && task_tags[i].tag_id == tag_id
}

/// In-memory tag store, the stand-in for the tag tables of the
/// database. Tag identifiers are unique, as the primary key makes them.
pub struct TagRepository {
    pub tags: Vec<Tag>,
    pub task_tags: Vec<TaskTag>,
}

impl TagRepository {
    /// Store invariant: no two tags share an identifier.
    pub open spec fn wf(&self) -> bool {
        forall|i: int, j: int|
            0 <= i < j < self.tags@.len() ==> self.tags@[i].id != self.tags@[j].id
    }

    pub open spec fn spec_has_tag(&self, id: u128) -> bool {
        exists|i: int| 0 <= i < self.tags@.len() && self.tags@[i].id == id
    }

    pub fn new() -> (r: Self)
        ensures
            r.wf(),
            r.tags@.len() == 0,
            r.task_tags@.len() == 0,
    {
        TagRepository { tags: Vec::new(), task_tags: Vec::new() }
    }

    pub fn find_by_id(&self, id: u128) -> (r: Option<Tag>)
        ensures
            r is Some <==> self.spec_has_tag(id),
            r matches Some(t) ==> t.id == id && self.tags@.contains(t),
    {
        let n = self.tags.len();
        let mut i: usize = 0;
        while i < n
            invariant
                i <= n,
                n == self.tags@.len(),
                forall|j: int| 0 <= j < i ==> self.tags@[j].id != id,
            decreases n - i,
        {
            if self.tags[i].id == id {
                return Some(self.tags[i].clone());
            }
            i = i + 1;
        }
        None
    }

    /// Every tag, in name order.
    pub fn find_all(&self) -> (r: Vec<Tag>)
        ensures
            r@.to_multiset() == self.tags@.to_multiset(),
            listed_in_order(r@),
    {
        let n = self.tags.len();
        let mut out: Vec<Tag> = Vec::new();
        let mut i: usize = 0;
        while i < n
            invariant
                i <= n,
                n == self.tags@.len(),
                out@ == self.tags@.subrange(0, i as int),
            decreases n - i,
        {
            out.push(self.tags[i].clone());
            proof {
                lemma_subrange_push(self.tags@, i as int);
            }
            i = i + 1;
        }
        proof {
            lemma_subrange_full(self.tags@);
        }
        sort_in_order(out)
    }

    /// First tag with exactly this name, as the database lookup returns.
    pub fn find_by_name(&self, name: &str) -> (r: Option<Tag>)
        ensures
            r == spec_find_by_name(self.tags@, name@),
    {
        let n = self.tags.len();
        let mut i: usize = 0;
        while i < n
            invariant
                i <= n,
                n == self.tags@.len(),
                forall|j: int| 0 <= j < i ==> self.tags@[j].name@ != name@,
            decreases n - i,
        {
            if str_eq(self.tags[i].name.as_str(), name) {
                proof {
                    lemma_find_by_name_at(self.tags@, name@, i as int);
                }
                return Some(self.tags[i].clone());
            }
            i = i + 1;
        }
        proof {
            lemma_find_by_name_none(self.tags@, name@);
        }
        None
    }

    /// Inserts a tag. A duplicate identifier is rejected as the primary
    /// key rejects it.
    pub fn create(&mut self, tag: &Tag) -> (r: Result<Tag, DomainError>)
        requires
            old(self).wf(),
        ensures
            final(self).wf(),
            final(self).task_tags@ == old(self).task_tags@,
            old(self).spec_has_tag(tag.id) ==> (r matches Err(e)
                && e matches DomainError::AlreadyExists(m)
                && m@ == "Resource already exists"@
                && final(self).tags@ == old(self).tags@),
            !old(self).spec_has_tag(tag.id) ==> (r matches Ok(t) && t == *tag
                && final(self).tags@ == old(self).tags@.push(*tag)),
    {
        let n = self.tags.len();
        let mut i: usize = 0;
        while i < n
            invariant
                i <= n,
                n == self.tags@.len(),
                forall|j: int| 0 <= j < i ==> self.tags@[j].id != tag.id,
            decreases n - i,
        {
            if self.tags[i].id == tag.id {
                return Err(DomainError::AlreadyExists(
                    String::from_str("Resource already exists"),
                ));
            }
            i = i + 1;
        }
        self.tags.push(tag.clone());
        Ok(tag.clone())
    }

    /// Replaces the stored tag with the same identifier; a missing row
    /// is reported as not found.
    pub fn update(&mut self, tag: &Tag) -> (r: Result<Tag, DomainError>)
        requires
            old(self).wf(),
        ensures
            final(self).wf(),
            final(self).task_tags@ == old(self).task_tags@,
            !old(self).spec_has_tag(tag.id) ==> (r matches Err(e)
                && e matches DomainError::NotFound(m)
                && m@ == "Resource not found"@
                && final(self).tags@ == old(self).tags@),
            old(self).spec_has_tag(tag.id) ==> (r matches Ok(t) && t == *tag
                && final(self).tags@
                == old(self).tags@.update(tag_idx(old(self).tags@, tag.id), *tag)),
    {
        let n = self.tags.len();
        let mut i: usize = 0;
        while i < n
            invariant
                i <= n,
                n == self.tags@.len(),
                self.tags@ == old(self).tags@,
                self.task_tags@ == old(self).task_tags@,
                forall|j: int| 0 <= j < i ==> self.tags@[j].id != tag.id,
            decreases n - i,
        {
            if self.tags[i].id == tag.id {
                proof {
                    lemma_tag_at_idx(self.tags@, self.tags@[i as int], tag.id);
                }
                self.tags.set(i, tag.clone());
                proof {
                    assert forall|p: int, q: int|
                        0 <= p < q < self.tags@.len() implies self.tags@[p].id
                        != self.tags@[q].id by {
                        assert(old(self).tags@[p].id != old(self).tags@[q].id);
                    }
                }
                return Ok(tag.clone());
            }
            i = i + 1;
        }
        Err(DomainError::NotFound(String::from_str("Resource not found")))
    }

    /// Deletes the tag with this identifier; deleting a missing tag is
    /// not an error.
    pub fn delete(&mut self, id: u128) -> (r: Result<(), DomainError>)
        requires
            old(self).wf(),
        ensures
            final(self).wf(),
            final(self).task_tags@ == old(self).task_tags@,
            r is Ok,
            !old(self).spec_has_tag(id) ==> final(self).tags@ == old(self).tags@,
            old(self).spec_has_tag(id) ==> final(self).tags@
                == old(self).tags@.remove(tag_idx(old(self).tags@, id)),
    {
        let n = self.tags.len();
        let mut i: usize = 0;
        while i < n
            invariant
                i <= n,
                n == self.tags@.len(),
                self.tags@ == old(self).tags@,
                self.task_tags@ == old(self).task_tags@,
                forall|j: int| 0 <= j < i ==> self.tags@[j].id != id,
            decreases n - i,
        {
            if self.tags[i].id == id {
                proof {
                    lemma_tag_at_idx(self.tags@, self.tags@[i as int], id);
                }
                self.tags.remove(i);
                proof {
                    assert forall|p: int, q: int|
                        0 <= p < q < self.tags@.len() implies self.tags@[p].id
                        != self.tags@[q].id by {
                        let op: int = if p < i { p } else { p + 1 };
                        let oq: int = if q < i { q } else { q + 1 };
                        assert(self.tags@[p] == old(self).tags@[op]);
                        assert(self.tags@[q] == old(self).tags@[oq]);
                    }
                }
                return Ok(());
            }
            i = i + 1;
        }
        Ok(())
    }

    /// Whether an association row links the given task and tag.
    pub fn has_task_tag(&self, task_id: u128, tag_id: u128) -> (r: bool)
        ensures
            r == spec_task_has_tag(self.task_tags@, task_id, tag_id),
    {
        let n = self.task_tags.len();
        let mut i: usize = 0;
        while i < n
            invariant
                i <= n,
                n == self.task_tags@.len(),
                forall|j: int| 0 <= j < i ==> !(self.task_tags@[j].task_id == task_id
                    && self.task_tags@[j].tag_id == tag_id),
            decreases n - i,
        {
            if self.task_tags[i].task_id == task_id && self.task_tags[i].tag_id == tag_id {
                return true;
            }
            i = i + 1;
        }
        false
    }

    /// All tags linked to the task, in name order.
    pub fn find_tags_by_task(&self, task_id: u128) -> (r: Vec<Tag>)
        ensures
            r@.to_multiset() == self.tags@.filter(
                |t: Tag| spec_task_has_tag(self.task_tags@, task_id, t.id),
            ).to_multiset(),
            listed_in_order(r@),
    {
        let ghost pred = |t: Tag| spec_task_has_tag(self.task_tags@, task_id, t.id);
        let n = self.tags.len();
        let mut out: Vec<Tag> = Vec::new();
        let mut i: usize = 0;
        while i < n
            invariant
                i <= n,
                n == self.tags@.len(),
                out@ == self.tags@.subrange(0, i as int).filter(pred),
            decreases n - i,
        {
            if self.has_task_tag(task_id, self.tags[i].id) {
                out.push(self.tags[i].clone());
            }
            proof {
                lemma_subrange_push(self.tags@, i as int);
                lemma_filter_push(self.tags@.subrange(0, i as int), self.tags@[i as int], pred);
            }
            i = i + 1;
        }
        proof {
            lemma_subrange_full(self.tags@);
        }
        sort_in_order(out)
    }

    /// Identifiers of all tasks linked to the tag, in store order.
    pub fn find_tasks_by_tag(&self, tag_id: u128) -> (r: Vec<u128>)
        ensures
            r@ == self.task_tags@.filter(|tt: TaskTag| tt.tag_id == tag_id).map_values(
                |tt: TaskTag| tt.task_id,
            ),
    {
        let ghost pred = |tt: TaskTag| tt.tag_id == tag_id;
        let ghost f = |tt: TaskTag| tt.task_id;
        let n = self.task_tags.len();
        let mut out: Vec<u128> = Vec::new();
        let mut i: usize = 0;
        while i < n
            invariant
                i <= n,
                n == self.task_tags@.len(),
                out@ == self.task_tags@.subrange(0, i as int).filter(pred).map_values(f),
            decreases n - i,
        {
            if self.task_tags[i].tag_id == tag_id {
                out.push(self.task_tags[i].task_id);
            }
            proof {
                lemma_subrange_push(self.task_tags@, i as int);
                lemma_filter_push(
                    self.task_tags@.subrange(0, i as int),
                    self.task_tags@[i as int],
                    pred,
                );
                if pred(self.task_tags@[i as int]) {
                    assert(self.task_tags@.subrange(0, i as int).filter(pred).push(
                        self.task_tags@[i as int],
                    ).map_values(f) =~= self.task_tags@.subrange(0, i as int).filter(
                        pred,
                    ).map_values(f).push(f(self.task_tags@[i as int])));
                }
            }
            i = i + 1;
        }
        proof {
            lemma_subrange_full(self.task_tags@);
        }
        out
    }

    /// Adds an association row. A duplicate task-tag pair yields no row,
    /// which the store reports as not found.
    pub fn add_tag_to_task(&mut self, task_tag: &TaskTag) -> (r: Result<TaskTag, DomainError>)
        ensures
            final(self).tags@ == old(self).tags@,
            spec_task_has_tag(old(self).task_tags@, task_tag.task_id, task_tag.tag_id)
                ==> (r matches Err(e)
                && e matches DomainError::NotFound(m)
                && m@ == "Resource not found"@
                && final(self).task_tags@ == old(self).task_tags@),
            !spec_task_has_tag(old(self).task_tags@, task_tag.task_id, task_tag.tag_id)
                ==> (r matches Ok(tt) && tt == *task_tag
                && final(self).task_tags@ == old(self).task_tags@.push(*task_tag)),
    {
        if self.has_task_tag(task_tag.task_id, task_tag.tag_id) {
            return Err(DomainError::NotFound(String::from_str("Resource not found")));
        }
        self.task_tags.push(*task_tag);
        Ok(*task_tag)
    }

    /// Removes the association rows of the given task-tag pair; removing a
    /// missing pair is not an error.
    pub fn remove_tag_from_task(&mut self, task_id: u128, tag_id: u128) -> (r: Result<
        (),
        DomainError,
    >)
        ensures
            final(self).tags@ == old(self).tags@,
            final(self).task_tags@ == old(self).task_tags@.filter(
                |tt: TaskTag| !(tt.task_id == task_id && tt.tag_id == tag_id),
            ),
            r is Ok,
    {
        let ghost pred = |tt: TaskTag| !(tt.task_id == task_id && tt.tag_id == tag_id);
        let n = self.task_tags.len();
        let mut kept: Vec<TaskTag> = Vec::new();
        let mut i: usize = 0;
        while i < n
            invariant
                i <= n,
                n == self.task_tags@.len(),
                kept@ == self.task_tags@.subrange(0, i as int).filter(pred),
            decreases n - i,
        {
            if !(self.task_tags[i].task_id == task_id && self.task_tags[i].tag_id == tag_id) {
                kept.push(self.task_tags[i]);
            }
            proof {
                lemma_subrange_push(self.task_tags@, i as int);
                lemma_filter_push(
                    self.task_tags@.subrange(0, i as int),
                    self.task_tags@[i as int],
                    pred,
                );
            }
            i = i + 1;
        }
        proof {
            lemma_subrange_full(self.task_tags@);
        }
        self.task_tags = kept;
        Ok(())
    }

    /// Replaces the task's tag links: all its rows are removed, then one
    /// fresh row is inserted per given tag, in order.
    pub fn set_task_tags(&mut self, task_id: u128, tag_ids: Vec<u128>) -> (r: Result<
        (),
        DomainError,
    >)
        ensures
            final(self).tags@ == old(self).tags@,
            r is Ok,
            spec_set_task_tags(old(self).task_tags@, final(self).task_tags@, task_id, tag_ids@),
    {
        let ghost pred = |tt: TaskTag| tt.task_id != task_id;
        let n = self.task_tags.len();
        let mut kept: Vec<TaskTag> = Vec::new();
        let mut i: usize = 0;
        while i < n
            invariant
                i <= n,
                n == self.task_tags@.len(),
                kept@ == self.task_tags@.subrange(0, i as int).filter(pred),
            decreases n - i,
        {
            if self.task_tags[i].task_id != task_id {
                kept.push(self.task_tags[i]);
            }
            proof {
                lemma_subrange_push(self.task_tags@, i as int);
                lemma_filter_push(
                    self.task_tags@.subrange(0, i as int),
                    self.task_tags@[i as int],
                    pred,
                );
            }
            i = i + 1;
        }
        proof {
            lemma_subrange_full(self.task_tags@);
        }
        let ghost kept_seq = kept@;
        let m = tag_ids.len();
        let mut k: usize = 0;
        while k < m
            invariant
                k <= m,
                m == tag_ids@.len(),
                kept@.len() == kept_seq.len() + k,
                kept@.subrange(0, kept_seq.len() as int) == kept_seq,
                forall|q: int| 0 <= q < k
                    ==> (#[trigger] kept@[kept_seq.len() + q].task_id == task_id
                    && kept@[kept_seq.len() + q].tag_id == tag_ids@[q]),
            decreases m - k,
        {
            let row = TaskTag::new(task_id, tag_ids[k]);
            kept.push(row);
            proof {
                assert(kept@.subrange(0, kept_seq.len() as int) =~= kept_seq);
            }
            k = k + 1;
        }
        self.task_tags = kept;
        proof {
            let keptg = old(self).task_tags@.filter(|tt: TaskTag| tt.task_id != task_id);
            assert(kept_seq == keptg);
            assert(self.task_tags@.subrange(0, keptg.len() as int) == keptg);
            assert forall|q: int| 0 <= q < tag_ids@.len() implies (#[trigger] self.task_tags@[
                keptg.len() + q
            ].task_id == task_id && self.task_tags@[keptg.len() + q].tag_id
                == tag_ids@[q]) by {
                assert(self.task_tags@[kept_seq.len() + q].task_id == task_id
                    && self.task_tags@[kept_seq.len() + q].tag_id == tag_ids@[q]);
            }
            assert(spec_set_task_tags(old(self).task_tags@, self.task_tags@, task_id, tag_ids@));
        }
        Ok(())
    }
}

/// How a stored tag and an update command combine into the updated tag.
pub open spec fn spec_tag_updated(before: Tag, cmd: UpdateTagCommand, after: Tag) -> bool {
    &&& after.id == before.id
    &&& after.created_at == before.created_at
    &&& after.name == (match cmd.name {
        Some(n) => n,
        None => before.name,
    })
    &&& after.color == (match cmd.color {
        Some(c) => c,
        None => before.color,
    })
    &&& after.description == (if cmd.description is Some {
        cmd.description
    } else {
        before.description
    })
}

/// Tag use cases: list, fetch, create with the name-uniqueness rule,
/// partial update, delete, and the task-tag link operations.
pub struct TagAppService {
    pub tag_repository: TagRepository,
}

impl TagAppService {
    pub fn new(tag_repository: TagRepository) -> (r: Self)
        ensures
            r.tag_repository == tag_repository,
    {
        TagAppService { tag_repository }
    }

    pub fn list_tags(&self) -> (r: Result<Vec<Tag>, DomainError>)
        ensures
            r matches Ok(v) && v@.to_multiset() == self.tag_repository.tags@.to_multiset(),
            r matches Ok(v) ==> listed_in_order(v@),
    {
        Ok(self.tag_repository.find_all())
    }

    pub fn get_tag(&self, id: u128) -> (r: Result<Tag, DomainError>)
        ensures
            r is Ok <==> self.tag_repository.spec_has_tag(id),
            r matches Ok(t) ==> t.id == id && self.tag_repository.tags@.contains(t),
            r matches Err(e) ==> (e matches DomainError::NotFound(m)
                && m@ == "Tag not found"@),
    {
        match self.tag_repository.find_by_id(id) {
            Some(t) => Ok(t),
            None => Err(DomainError::NotFound(String::from_str("Tag not found"))),
        }
    }

    /// Creates a tag unless another tag already carries exactly the same
    /// name (case-sensitive): a name differing only in case is accepted.
    pub fn create_tag(&mut self, cmd: CreateTagCommand) -> (r: Result<Tag, DomainError>)
        requires
            old(self).tag_repository.wf(),
        ensures
            final(self).tag_repository.wf(),
            final(self).tag_repository.task_tags@ == old(self).tag_repository.task_tags@,
            tag_name_exists(old(self).tag_repository.tags@, cmd.name@) ==> (r matches Err(e)
                && e matches DomainError::ValidationError(m)
                && m@ == "Tag with this name already exists"@
                && final(self).tag_repository.tags@ == old(self).tag_repository.tags@),
            !tag_name_exists(old(self).tag_repository.tags@, cmd.name@) ==> ((r matches Ok(t)
                ==> t.name@ == cmd.name@
                && (cmd.color matches Some(c) ==> t.color == c)
                && (cmd.color is None ==> t.color@ == "#6b7280"@)
                && t.description == cmd.description
                && final(self).tag_repository.tags@
                    == old(self).tag_repository.tags@.push(t))
                && (r matches Err(e) ==> e is AlreadyExists
                && final(self).tag_repository.tags@ == old(self).tag_repository.tags@)),
    {
        proof {
            lemma_find_by_name_exists(self.tag_repository.tags@, cmd.name@);
        }
        if let Some(_) = self.tag_repository.find_by_name(cmd.name.as_str()) {
            return Err(DomainError::ValidationError(
                String::from_str("Tag with this name already exists"),
            ));
        }
        let tag = Tag::new(cmd.name, cmd.color, cmd.description);
        self.tag_repository.create(&tag)
    }

    /// Applies a partial update unless the new name collides with a
    /// different existing tag (case-sensitive exact match).
    pub fn update_tag(&mut self, id: u128, cmd: UpdateTagCommand) -> (r: Result<
        Tag,
        DomainError,
    >)
        requires
            old(self).tag_repository.wf(),
        ensures
            final(self).tag_repository.wf(),
            final(self).tag_repository.task_tags@ == old(self).tag_repository.task_tags@,
            !old(self).tag_repository.spec_has_tag(id) ==> (r matches Err(e)
                && e matches DomainError::NotFound(m)
                && m@ == "Tag not found"@
                && final(self).tag_repository.tags@ == old(self).tag_repository.tags@),
            old(self).tag_repository.spec_has_tag(id) && (cmd.name matches Some(n)
                && (spec_find_by_name(old(self).tag_repository.tags@, n@) matches Some(t)
                && t.id != id)) ==> (r matches Err(e)
                && e matches DomainError::ValidationError(m)
                && m@ == "Tag with this name already exists"@
                && final(self).tag_repository.tags@ == old(self).tag_repository.tags@),
            old(self).tag_repository.spec_has_tag(id) && !(cmd.name matches Some(n)
                && (spec_find_by_name(old(self).tag_repository.tags@, n@) matches Some(t)
                && t.id != id)) ==> (r matches Ok(t)
                && spec_tag_updated(
                old(self).tag_repository.tags@[tag_idx(old(self).tag_repository.tags@, id)],
                cmd,
                t,
            )
                && final(self).tag_repository.tags@ == old(self).tag_repository.tags@.update(
                tag_idx(old(self).tag_repository.tags@, id),
                t,
            )),
    {
        let tag_opt = self.tag_repository.find_by_id(id);
        let mut tag = match tag_opt {
            Some(t) => t,
            None => {
                return Err(DomainError::NotFound(String::from_str("Tag not found")));
            },
        };
        proof {
            lemma_tag_at_idx(self.tag_repository.tags@, tag, id);
        }
        if let Some(name) = &cmd.name {
            if let Some(existing) = self.tag_repository.find_by_name(name.as_str()) {
                if existing.id != id {
                    return Err(DomainError::ValidationError(
                        String::from_str("Tag with this name already exists"),
                    ));
                }
            }
        }
        tag.update(cmd.name, cmd.color, cmd.description);
        self.tag_repository.update(&tag)
    }

    /// Deletes a tag that exists; a missing tag is reported as not
    /// found.
    pub fn delete_tag(&mut self, id: u128) -> (r: Result<(), DomainError>)
        requires
            old(self).tag_repository.wf(),
        ensures
            final(self).tag_repository.wf(),
            final(self).tag_repository.task_tags@ == old(self).tag_repository.task_tags@,
            !old(self).tag_repository.spec_has_tag(id) ==> (r matches Err(e)
                && e matches DomainError::NotFound(m)
                && m@ == "Tag not found"@
                && final(self).tag_repository.tags@ == old(self).tag_repository.tags@),
            old(self).tag_repository.spec_has_tag(id) ==> (r is Ok
                && final(self).tag_repository.tags@ == old(self).tag_repository.tags@.remove(
                tag_idx(old(self).tag_repository.tags@, id),
            )),
    {
        match self.tag_repository.find_by_id(id) {
            Some(_) => {},
            None => {
                return Err(DomainError::NotFound(String::from_str("Tag not found")));
            },
        }
        self.tag_repository.delete(id)
    }

    pub fn get_task_tags(&self, task_id: u128) -> (r: Result<Vec<Tag>, DomainError>)
        ensures
            r matches Ok(v) && v@.to_multiset() == self.tag_repository.tags@.filter(
                |t: Tag| spec_task_has_tag(self.tag_repository.task_tags@, task_id, t.id),
            ).to_multiset(),
            r matches Ok(v) ==> listed_in_order(v@),
    {
        Ok(self.tag_repository.find_tags_by_task(task_id))
    }

    /// Links a tag to a task after checking that the tag exists.
    pub fn add_tag_to_task(&mut self, task_id: u128, tag_id: u128) -> (r: Result<
        TaskTag,
        DomainError,
    >)
        ensures
            final(self).tag_repository.tags@ == old(self).tag_repository.tags@,
            !old(self).tag_repository.spec_has_tag(tag_id) ==> (r matches Err(e)
                && e matches DomainError::NotFound(m)
                && m@ == "Tag not found"@
                && final(self).tag_repository.task_tags@
                    == old(self).tag_repository.task_tags@),
            old(self).tag_repository.spec_has_tag(tag_id) && spec_task_has_tag(
                old(self).tag_repository.task_tags@,
                task_id,
                tag_id,
            ) ==> (r matches Err(e) && e is NotFound
                && final(self).tag_repository.task_tags@
                    == old(self).tag_repository.task_tags@),
            old(self).tag_repository.spec_has_tag(tag_id) && !spec_task_has_tag(
                old(self).tag_repository.task_tags@,
                task_id,
                tag_id,
            ) ==> (r matches Ok(tt) && tt.task_id == task_id && tt.tag_id == tag_id
                && final(self).tag_repository.task_tags@
                    == old(self).tag_repository.task_tags@.push(tt)),
    {
        match self.tag_repository.find_by_id(tag_id) {
            Some(_) => {},
            None => {
                return Err(DomainError::NotFound(String::from_str("Tag not found")));
            },
        }
        let task_tag = TaskTag::new(task_id, tag_id);
        self.tag_repository.add_tag_to_task(&task_tag)
    }

    pub fn remove_tag_from_task(&mut self, task_id: u128, tag_id: u128) -> (r: Result<
        (),
        DomainError,
    >)
        ensures
            final(self).tag_repository.tags@ == old(self).tag_repository.tags@,
            final(self).tag_repository.task_tags@ == old(self).tag_repository.task_tags@.filter(
                |tt: TaskTag| !(tt.task_id == task_id && tt.tag_id == tag_id),
            ),
            r is Ok,
    {
        self.tag_repository.remove_tag_from_task(task_id, tag_id)
    }

    /// Replaces the task's tag links with the given tags, after checking
    /// that each exists, and returns the task's tags afterwards.
    pub fn set_task_tags(&mut self, task_id: u128, tag_ids: Vec<u128>) -> (r: Result<
        Vec<Tag>,
        DomainError,
    >)
        ensures
            final(self).tag_repository.tags@ == old(self).tag_repository.tags@,
            (exists|k: int| 0 <= k < tag_ids@.len()
                && !old(self).tag_repository.spec_has_tag(tag_ids@[k])) ==> (r matches Err(e)
                && e is NotFound
                && final(self).tag_repository.task_tags@
                    == old(self).tag_repository.task_tags@),
            (forall|k: int| 0 <= k < tag_ids@.len()
                ==> old(self).tag_repository.spec_has_tag(#[trigger] tag_ids@[k]))
                ==> (r matches Ok(v)
                && spec_set_task_tags(
                old(self).tag_repository.task_tags@,
                final(self).tag_repository.task_tags@,
                task_id,
                tag_ids@,
            )
                && v@.to_multiset() == final(self).tag_repository.tags@.filter(
                |t: Tag| spec_task_has_tag(final(self).tag_repository.task_tags@, task_id, t.id),
            ).to_multiset() && listed_in_order(v@)),
    {
        let m = tag_ids.len();
        let mut k: usize = 0;
        while k < m
            invariant
                k <= m,
                m == tag_ids@.len(),
                self == old(self),
                forall|q: int| 0 <= q < k
                    ==> self.tag_repository.spec_has_tag(#[trigger] tag_ids@[q]),
            decreases m - k,
        {
            match self.tag_repository.find_by_id(tag_ids[k]) {
                Some(_) => {},
                None => {
                    return Err(DomainError::NotFound(
                        String::from_str("Tag ").concat(
                            crate::fresh::uuid_string(tag_ids[k]).as_str(),
                        ).concat(" not found"),
                    ));
                },
            }
            k = k + 1;
        }
        match self.tag_repository.set_task_tags(task_id, tag_ids) {
            Ok(_) => {},
            Err(e) => {
                return Err(e);
            },
        }
        Ok(self.tag_repository.find_tags_by_task(task_id))
    }
}

} // verus!
