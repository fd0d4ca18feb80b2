//! Notifications: strictly single-owner resources. Every read or write
//! checks `notification.user_id` against the requesting principal's
//! identifier; there is deliberately no Admin override here, unlike
//! every other resource family.

use vstd::prelude::*;

use crate::error::DomainError;
use crate::fresh::{fresh_id, now_micros};
use crate::order::{listed_in_order, sort_in_order, ListOrder};
use crate::seqs::{lemma_filter_push, lemma_subrange_full, lemma_subrange_push};
use crate::text::str_eq;

verus! {

broadcast use vstd::seq_lib::group_to_multiset_ensures;

#[derive(Clone, Copy, Debug, PartialEq, Eq, Structural)]
pub enum NotificationType {
    TaskAssigned,
    TaskUpdated,
    TaskCompleted,
    TaskDueSoon,
    ProjectUpdated,
    CommentAdded,
    Mention,
    System,
}

impl NotificationType {
    /// The snake_case wire name of the variant.
    pub open spec fn spec_name(&self) -> Seq<char> {
        match self {
            NotificationType::TaskAssigned => "task_assigned"@,
            NotificationType::TaskUpdated => "task_updated"@,
            NotificationType::TaskCompleted => "task_completed"@,
            NotificationType::TaskDueSoon => "task_due_soon"@,
            NotificationType::ProjectUpdated => "project_updated"@,
            NotificationType::CommentAdded => "comment_added"@,
            NotificationType::Mention => "mention"@,
            NotificationType::System => "system"@,
        }
    }

    /// The variant a wire name denotes, if any.
    pub open spec fn spec_from_str(s: Seq<char>) -> Result<NotificationType, ()> {
        if s == "task_assigned"@ {
            Ok(NotificationType::TaskAssigned)
        } else if s == "task_updated"@ {
            Ok(NotificationType::TaskUpdated)
        } else if s == "task_completed"@ {
            Ok(NotificationType::TaskCompleted)
        } else if s == "task_due_soon"@ {
            Ok(NotificationType::TaskDueSoon)
        } else if s == "project_updated"@ {
            Ok(NotificationType::ProjectUpdated)
        } else if s == "comment_added"@ {
            Ok(NotificationType::CommentAdded)
        } else if s == "mention"@ {
            Ok(NotificationType::Mention)
        } else if s == "system"@ {
            Ok(NotificationType::System)
        } else {
            Err(())
        }
    }

    pub fn as_str(&self) -> (r: &'static str)
        ensures
            r@ == self.spec_name(),
    {
        match self {
            NotificationType::TaskAssigned => "task_assigned",
            NotificationType::TaskUpdated => "task_updated",
            NotificationType::TaskCompleted => "task_completed",
            NotificationType::TaskDueSoon => "task_due_soon",
            NotificationType::ProjectUpdated => "project_updated",
            NotificationType::CommentAdded => "comment_added",
            NotificationType::Mention => "mention",
            NotificationType::System => "system",
        }
    }

    pub fn from_str(s: &str) -> (r: Result<NotificationType, ()>)
        ensures
            r == NotificationType::spec_from_str(s@),
    {
        if str_eq(s, "task_assigned") {
            Ok(NotificationType::TaskAssigned)
        } else if str_eq(s, "task_updated") {
            Ok(NotificationType::TaskUpdated)
        } else if str_eq(s, "task_completed") {
            Ok(NotificationType::TaskCompleted)
        } else if str_eq(s, "task_due_soon") {
            Ok(NotificationType::TaskDueSoon)
        } else if str_eq(s, "project_updated") {
            Ok(NotificationType::ProjectUpdated)
        } else if str_eq(s, "comment_added") {
            Ok(NotificationType::CommentAdded)
        } else if str_eq(s, "mention") {
            Ok(NotificationType::Mention)
        } else if str_eq(s, "system") {
            Ok(NotificationType::System)
        } else {
            Err(())
        }
    }
}

/// A notification delivered to exactly one user's inbox.
#[derive(Debug)]
pub struct Notification {
    pub id: u128,
    pub user_id: u128,
    pub notification_type: NotificationType,
    pub title: String,
    pub message: String,
    pub link: Option<String>,
    pub is_read: bool,
    pub created_at: i64,
}

impl Notification {
    /// A fresh, unread notification for the given user.
    pub fn new(
        user_id: u128,
        notification_type: NotificationType,
        title: String,
        message: String,
        link: Option<String>,
    ) -> (r: Notification)
        ensures
            r.user_id == user_id,
            r.notification_type == notification_type,
            r.title == title,
            r.message == message,
            r.link == link,
            !r.is_read,
    {
        Notification {
            id: fresh_id(),
            user_id,
            notification_type,
            title,
            message,
            link,
            is_read: false,
            created_at: now_micros(),
        }
    }
}

impl Clone for Notification {
    fn clone(&self) -> (r: Self)
        ensures
            r == *self,
    {
        Notification {
            id: self.id,
            user_id: self.user_id,
            notification_type: self.notification_type,
            title: self.title.clone(),
            message: self.message.clone(),
            link: match &self.link {
                Some(l) => Some(l.clone()),
                None => None,
            },
            is_read: self.is_read,
            created_at: self.created_at,
        }
    }
}

/// Notification listings come newest first, by creation time.
impl ListOrder for Notification {
    open spec fn spec_le(&self, other: &Self) -> bool {
        self.created_at >= other.created_at
    }

    proof fn lemma_total(a: &Self, b: &Self) {
    }

    proof fn lemma_trans(a: &Self, b: &Self, c: &Self) {
    }

    fn le(&self, other: &Self) -> bool {
        self.created_at >= other.created_at
    }
}

/// Index of the notification with the given identifier (meaningful only
/// when one exists; identifiers are unique in a well-formed store).
pub open spec fn notification_idx(notifications: Seq<Notification>, id: u128) -> int {
    choose|i: int| 0 <= i < notifications.len() && notifications[i].id == id
}

/// In a store with unique identifiers, a contained notification with
/// the given identifier sits at `notification_idx`.
pub proof fn lemma_notification_at_idx(
    notifications: Seq<Notification>,
    n: Notification,
    id: u128,
)
    requires
        forall|i: int, j: int|
            0 <= i < j < notifications.len() ==> notifications[i].id != notifications[j].id,
        notifications.contains(n),
        n.id == id,
    ensures
        0 <= notification_idx(notifications, id) < notifications.len(),
        notifications[notification_idx(notifications, id)] == n,
{
    let k = choose|k: int| 0 <= k < notifications.len() && notifications[k] == n;
    assert(0 <= k < notifications.len() && notifications[k].id == id);
    let i = notification_idx(notifications, id);
    assert(0 <= i < notifications.len() && notifications[i].id == id);
    if i != k {
        if i < k {
            assert(notifications[i].id != notifications[k].id);
        } else {
            assert(notifications[k].id != notifications[i].id);
        }
    }
}

/// A notification marked read, all else unchanged.
pub open spec fn spec_marked_read(n: Notification) -> Notification {
    Notification { is_read: true, ..n }
}

/// In-memory notification store. Identifiers are unique, as the primary
/// key makes them.
pub struct NotificationRepository {
    pub notifications: Vec<Notification>,
}

impl NotificationRepository {
    /// Store invariant: no two notifications share an identifier.
    pub open spec fn wf(&self) -> bool {
        forall|i: int, j: int|
            0 <= i < j < self.notifications@.len()
                ==> self.notifications@[i].id != self.notifications@[j].id
    }

    pub open spec fn spec_has_notification(&self, id: u128) -> bool {
        exists|i: int| 0 <= i < self.notifications@.len() && self.notifications@[i].id == id
    }

    pub fn new() -> (r: Self)
        ensures
            r.wf(),
            r.notifications@.len() == 0,
    {
        NotificationRepository { notifications: Vec::new() }
    }

    /// The user's notifications, newest first, at most 100 of them as
    /// the listing query is capped: the newest-first arrangement of the
    /// user's notifications, cut after 100.
    pub fn find_by_user(&self, user_id: u128) -> (r: Vec<Notification>)
        ensures
            (exists|g: Seq<Notification>| {
                &&& g.to_multiset() == self.notifications@.filter(
                    |n: Notification| n.user_id == user_id,
                ).to_multiset()
                &&& listed_in_order(g)
                &&& r@ == if g.len() <= 100 {
                    g
                } else {
                    g.subrange(0, 100)
                }
            }),
    {
        let ghost pred = |n: Notification| n.user_id == user_id;
        let n = self.notifications.len();
        let mut out: Vec<Notification> = Vec::new();
        let mut i: usize = 0;
        while i < n
            invariant
                i <= n,
                n == self.notifications@.len(),
                out@ == self.notifications@.subrange(0, i as int).filter(pred),
            decreases n - i,
        {
            if self.notifications[i].user_id == user_id {
                out.push(self.notifications[i].clone());
            }
            proof {
                lemma_subrange_push(self.notifications@, i as int);
                lemma_filter_push(
                    self.notifications@.subrange(0, i as int),
                    self.notifications@[i as int],
                    pred,
                );
            }
            i = i + 1;
        }
        proof {
            lemma_subrange_full(self.notifications@);
        }
        let mut sorted = sort_in_order(out);
        let ghost g = sorted@;
        sorted.truncate(100);
        proof {
            assert(g.to_multiset() == self.notifications@.filter(
                |n: Notification| n.user_id == user_id,
            ).to_multiset() && listed_in_order(g) && sorted@ == if g.len() <= 100 {
                g
            } else {
                g.subrange(0, 100)
            });
        }
        sorted
    }

    /// The user's unread notifications, newest first.
    pub fn find_unread_by_user(&self, user_id: u128) -> (r: Vec<Notification>)
        ensures
            r@.to_multiset() == self.notifications@.filter(
                |n: Notification| n.user_id == user_id && !n.is_read,
            ).to_multiset(),
            listed_in_order(r@),
    {
        let ghost pred = |n: Notification| n.user_id == user_id && !n.is_read;
        let n = self.notifications.len();
        let mut out: Vec<Notification> = Vec::new();
        let mut i: usize = 0;
        while i < n
            invariant
                i <= n,
                n == self.notifications@.len(),
                out@ == self.notifications@.subrange(0, i as int).filter(pred),
            decreases n - i,
        {
            if self.notifications[i].user_id == user_id && !self.notifications[i].is_read {
                out.push(self.notifications[i].clone());
            }
            proof {
                lemma_subrange_push(self.notifications@, i as int);
                lemma_filter_push(
                    self.notifications@.subrange(0, i as int),
                    self.notifications@[i as int],
                    pred,
                );
            }
            i = i + 1;
        }
        proof {
            lemma_subrange_full(self.notifications@);
        }
        sort_in_order(out)
    }

    /// How many notifications of the user are unread.
    pub fn count_unread(&self, user_id: u128) -> (r: usize)
        ensures
            r == self.notifications@.filter(
                |n: Notification| n.user_id == user_id && !n.is_read,
            ).len(),
    {
        let unread = self.find_unread_by_user(user_id);
        proof {
            let f = self.notifications@.filter(
                |n: Notification| n.user_id == user_id && !n.is_read,
            );
            assert(unread@.len() == unread@.to_multiset().len());
            assert(f.len() == f.to_multiset().len());
        }
        unread.len()
    }

    pub fn find_by_id(&self, id: u128) -> (r: Option<Notification>)
        ensures
            r is Some <==> self.spec_has_notification(id),
            r matches Some(nn) ==> nn.id == id && self.notifications@.contains(nn),
    {
        let n = self.notifications.len();
        let mut i: usize = 0;
        while i < n
            invariant
                i <= n,
                n == self.notifications@.len(),
                forall|j: int| 0 <= j < i ==> self.notifications@[j].id != id,
            decreases n - i,
        {
            if self.notifications[i].id == id {
                return Some(self.notifications[i].clone());
            }
            i = i + 1;
        }
        None
    }

    /// Inserts a notification. This store surfaces its failures as
    /// database errors; a duplicate identifier is one.
    pub fn create(&mut self, notification: &Notification) -> (r: Result<
        Notification,
        DomainError,
    >)
        requires
            old(self).wf(),
        ensures
            final(self).wf(),
            old(self).spec_has_notification(notification.id) ==> (r matches Err(e)
                && e is DatabaseError
                && final(self).notifications@ == old(self).notifications@),
            !old(self).spec_has_notification(notification.id) ==> (r matches Ok(nn)
                && nn == *notification
                && final(self).notifications@ == old(self).notifications@.push(*notification)),
    {
        let n = self.notifications.len();
        let mut i: usize = 0;
        while i < n
            invariant
                i <= n,
                n == self.notifications@.len(),
                forall|j: int| 0 <= j < i ==> self.notifications@[j].id != notification.id,
            decreases n - i,
        {
            if self.notifications[i].id == notification.id {
                return Err(DomainError::DatabaseError(
                    String::from_str("duplicate key value"),
                ));
            }
            i = i + 1;
        }
        self.notifications.push(notification.clone());
        Ok(notification.clone())
    }

    /// Marks the notification read; marking a missing one changes
    /// nothing and is not an error.
    pub fn mark_as_read(&mut self, id: u128) -> (r: Result<(), DomainError>)
        requires
            old(self).wf(),
        ensures
            final(self).wf(),
            r is Ok,
            !old(self).spec_has_notification(id) ==> final(self).notifications@
                == old(self).notifications@,
            old(self).spec_has_notification(id) ==> final(self).notifications@
                == old(self).notifications@.update(
                notification_idx(old(self).notifications@, id),
                spec_marked_read(
                    old(self).notifications@[notification_idx(old(self).notifications@, id)],
                ),
            ),
    {
        let n = self.notifications.len();
        let mut i: usize = 0;
        while i < n
            invariant
                i <= n,
                n == self.notifications@.len(),
                self.notifications@ == old(self).notifications@,
                forall|j: int| 0 <= j < i ==> self.notifications@[j].id != id,
            decreases n - i,
        {
            if self.notifications[i].id == id {
                proof {
                    lemma_notification_at_idx(
                        self.notifications@,
                        self.notifications@[i as int],
                        id,
                    );
                }
                let mut updated = self.notifications[i].clone();
                updated.is_read = true;
                self.notifications.set(i, updated);
                proof {
                    assert forall|p: int, q: int|
                        0 <= p < q < self.notifications@.len() implies self.notifications@[p].id
                        != self.notifications@[q].id by {
                        assert(old(self).notifications@[p].id != old(self).notifications@[q].id);
                    }
                }
                return Ok(());
            }
            i = i + 1;
        }
        Ok(())
    }

    /// Marks every notification of the user read, all else unchanged.
    pub fn mark_all_as_read(&mut self, user_id: u128) -> (r: Result<(), DomainError>)
        requires
            old(self).wf(),
        ensures
            final(self).wf(),
            r is Ok,
            final(self).notifications@.len() == old(self).notifications@.len(),
            forall|i: int| 0 <= i < old(self).notifications@.len()
                ==> #[trigger] final(self).notifications@[i] == (
                if old(self).notifications@[i].user_id == user_id {
                    spec_marked_read(old(self).notifications@[i])
                } else {
                    old(self).notifications@[i]
                }),
    {
        let n = self.notifications.len();
        let mut i: usize = 0;
        while i < n
            invariant
                i <= n,
                n == self.notifications@.len(),
                forall|j: int| i <= j < n ==> #[trigger] self.notifications@[j]
                    == old(self).notifications@[j],
                forall|j: int| 0 <= j < i ==> #[trigger] self.notifications@[j] == (
                    if old(self).notifications@[j].user_id == user_id {
                        spec_marked_read(old(self).notifications@[j])
                    } else {
                        old(self).notifications@[j]
                    }),
            decreases n - i,
        {
            if self.notifications[i].user_id == user_id {
                let mut updated = self.notifications[i].clone();
                updated.is_read = true;
                self.notifications.set(i, updated);
            }
            i = i + 1;
        }
        proof {
            assert forall|p: int, q: int|
                0 <= p < q < self.notifications@.len() implies self.notifications@[p].id
                != self.notifications@[q].id by {
                assert(old(self).notifications@[p].id != old(self).notifications@[q].id);
            }
        }
        Ok(())
    }

    /// Deletes the notification with this identifier; deleting a
    /// missing one is not an error.
    pub fn delete(&mut self, id: u128) -> (r: Result<(), DomainError>)
        requires
            old(self).wf(),
        ensures
            final(self).wf(),
            r is Ok,
            !old(self).spec_has_notification(id) ==> final(self).notifications@
                == old(self).notifications@,
            old(self).spec_has_notification(id) ==> final(self).notifications@
                == old(self).notifications@.remove(
                notification_idx(old(self).notifications@, id),
            ),
    {
        let n = self.notifications.len();
        let mut i: usize = 0;
        while i < n
            invariant
                i <= n,
                n == self.notifications@.len(),
                self.notifications@ == old(self).notifications@,
                forall|j: int| 0 <= j < i ==> self.notifications@[j].id != id,
            decreases n - i,
        {
            if self.notifications[i].id == id {
                proof {
                    lemma_notification_at_idx(
                        self.notifications@,
                        self.notifications@[i as int],
                        id,
                    );
                }
                self.notifications.remove(i);
                proof {
                    assert forall|p: int, q: int|
                        0 <= p < q < self.notifications@.len() implies self.notifications@[p].id
                        != self.notifications@[q].id by {
                        let op: int = if p < i { p } else { p + 1 };
                        let oq: int = if q < i { q } else { q + 1 };
                        assert(self.notifications@[p] == old(self).notifications@[op]);
                        assert(self.notifications@[q] == old(self).notifications@[oq]);
                    }
                }
                return Ok(());
            }
            i = i + 1;
        }
        Ok(())
    }
}

/// Notification use cases. Ownership is the only access rule: the
/// requesting user's identifier must equal `notification.user_id`, with
/// no role-based bypass of any kind.
pub struct NotificationAppService {
    pub notification_repository: NotificationRepository,
}

impl NotificationAppService {
    pub fn new(notification_repository: NotificationRepository) -> (r: Self)
        ensures
            r.notification_repository == notification_repository,
    {
        NotificationAppService { notification_repository }
    }

    pub fn get_user_notifications(&self, user_id: u128) -> (r: Result<
        Vec<Notification>,
        DomainError,
    >)
        ensures
            r matches Ok(v) && (exists|g: Seq<Notification>| {
                &&& g.to_multiset() == self.notification_repository.notifications@.filter(
                    |n: Notification| n.user_id == user_id,
                ).to_multiset()
                &&& listed_in_order(g)
                &&& v@ == if g.len() <= 100 {
                    g
                } else {
                    g.subrange(0, 100)
                }
            }),
    {
        Ok(self.notification_repository.find_by_user(user_id))
    }

    pub fn get_unread_notifications(&self, user_id: u128) -> (r: Result<
        Vec<Notification>,
        DomainError,
    >)
        ensures
            r matches Ok(v) && v@.to_multiset()
                == self.notification_repository.notifications@.filter(
                |n: Notification| n.user_id == user_id && !n.is_read,
            ).to_multiset(),
            r matches Ok(v) ==> listed_in_order(v@),
    {
        Ok(self.notification_repository.find_unread_by_user(user_id))
    }

    pub fn get_unread_count(&self, user_id: u128) -> (r: Result<usize, DomainError>)
        ensures
            r matches Ok(c) && c == self.notification_repository.notifications@.filter(
                |n: Notification| n.user_id == user_id && !n.is_read,
            ).len(),
    {
        Ok(self.notification_repository.count_unread(user_id))
    }

    pub fn create_notification(
        &mut self,
        user_id: u128,
        notification_type: NotificationType,
        title: String,
        message: String,
        link: Option<String>,
    ) -> (r: Result<Notification, DomainError>)
        requires
            old(self).notification_repository.wf(),
        ensures
            final(self).notification_repository.wf(),
            r matches Ok(nn) ==> nn.user_id == user_id
                && nn.notification_type == notification_type && nn.title@ == title@
                && nn.message@ == message@ && !nn.is_read
                && final(self).notification_repository.notifications@
                    == old(self).notification_repository.notifications@.push(nn),
            r matches Err(e) ==> e is DatabaseError
                && final(self).notification_repository.notifications@
                    == old(self).notification_repository.notifications@,
    {
        let notification = Notification::new(user_id, notification_type, title, message, link);
        self.notification_repository.create(&notification)
    }

    /// Marks a notification read, but only for its owner: any other
    /// requester, administrators included, is turned away.
    pub fn mark_as_read(&mut self, id: u128, user_id: u128) -> (r: Result<(), DomainError>)
        requires
            old(self).notification_repository.wf(),
        ensures
            final(self).notification_repository.wf(),
            !old(self).notification_repository.spec_has_notification(id) ==> (r matches Err(e)
                && e matches DomainError::NotFound(m)
                && m@ == "Notification not found"@
                && final(self).notification_repository.notifications@
                    == old(self).notification_repository.notifications@),
            old(self).notification_repository.spec_has_notification(id)
                && old(self).notification_repository.notifications@[notification_idx(
                old(self).notification_repository.notifications@,
                id,
            )].user_id != user_id ==> (r matches Err(e)
                && e matches DomainError::Forbidden(m)
                && m@ == "Not authorized to modify this notification"@
                && final(self).notification_repository.notifications@
                    == old(self).notification_repository.notifications@),
            old(self).notification_repository.spec_has_notification(id)
                && old(self).notification_repository.notifications@[notification_idx(
                old(self).notification_repository.notifications@,
                id,
            )].user_id == user_id ==> (r is Ok
                && final(self).notification_repository.notifications@
                    == old(self).notification_repository.notifications@.update(
                notification_idx(old(self).notification_repository.notifications@, id),
                spec_marked_read(
                    old(self).notification_repository.notifications@[notification_idx(
                        old(self).notification_repository.notifications@,
                        id,
                    )],
                ),
            )),
    {
        let notification = self.notification_repository.find_by_id(id);
        match notification {
            Some(nn) => {
                proof {
                    lemma_notification_at_idx(
                        self.notification_repository.notifications@,
                        nn,
                        id,
                    );
                }
                if nn.user_id == user_id {
                    self.notification_repository.mark_as_read(id)
                } else {
                    Err(DomainError::Forbidden(
                        String::from_str("Not authorized to modify this notification"),
                    ))
                }
            },
            None => Err(DomainError::NotFound(String::from_str("Notification not found"))),
        }
    }

    /// Marks every notification of the requesting user read.
    pub fn mark_all_as_read(&mut self, user_id: u128) -> (r: Result<(), DomainError>)
        requires
            old(self).notification_repository.wf(),
        ensures
            final(self).notification_repository.wf(),
            r is Ok,
            final(self).notification_repository.notifications@.len()
                == old(self).notification_repository.notifications@.len(),
            forall|i: int| 0 <= i < old(self).notification_repository.notifications@.len()
                ==> #[trigger] final(self).notification_repository.notifications@[i] == (
                if old(self).notification_repository.notifications@[i].user_id == user_id {
                    spec_marked_read(old(self).notification_repository.notifications@[i])
                } else {
                    old(self).notification_repository.notifications@[i]
                }),
    {
        self.notification_repository.mark_all_as_read(user_id)
    }

    /// Deletes a notification, but only for its owner: any other
    /// requester, administrators included, is turned away.
    pub fn delete_notification(&mut self, id: u128, user_id: u128) -> (r: Result<
        (),
        DomainError,
    >)
        requires
            old(self).notification_repository.wf(),
        ensures
            final(self).notification_repository.wf(),
            !old(self).notification_repository.spec_has_notification(id) ==> (r matches Err(e)
                && e matches DomainError::NotFound(m)
                && m@ == "Notification not found"@
                && final(self).notification_repository.notifications@
                    == old(self).notification_repository.notifications@),
            old(self).notification_repository.spec_has_notification(id)
                && old(self).notification_repository.notifications@[notification_idx(
                old(self).notification_repository.notifications@,
                id,
            )].user_id != user_id ==> (r matches Err(e)
                && e matches DomainError::Forbidden(m)
                && m@ == "Not authorized to delete this notification"@
                && final(self).notification_repository.notifications@
                    == old(self).notification_repository.notifications@),
            old(self).notification_repository.spec_has_notification(id)
                && old(self).notification_repository.notifications@[notification_idx(
                old(self).notification_repository.notifications@,
                id,
            )].user_id == user_id ==> (r is Ok
                && final(self).notification_repository.notifications@
                    == old(self).notification_repository.notifications@.remove(
                notification_idx(old(self).notification_repository.notifications@, id),
            )),
    {
        let notification = self.notification_repository.find_by_id(id);
        match notification {
            Some(nn) => {
                proof {
                    lemma_notification_at_idx(
                        self.notification_repository.notifications@,
                        nn,
                        id,
                    );
                }
                if nn.user_id == user_id {
                    self.notification_repository.delete(id)
                } else {
                    Err(DomainError::Forbidden(
                        String::from_str("Not authorized to delete this notification"),
                    ))
                }
            },
            None => Err(DomainError::NotFound(String::from_str("Notification not found"))),
        }
    }
}

} // verus!
