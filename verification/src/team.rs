//! Teams: the team entity, its membership rows, the in-memory team
//! store and the team application service. Lead authority comes from
//! `Team.lead_id` alone; the role recorded on a membership row is data
//! only and grants nothing.

use vstd::prelude::*;

use crate::commands::{AddTeamMemberCommand, CreateTeamCommand, UpdateTeamCommand};
use crate::enums::TeamMemberRole;
use crate::error::DomainError;
use crate::fresh::{fresh_id, now_micros};
use crate::order::{
    lemma_permutation_keeps_unique_keys, listed_in_order, sort_in_order, ListOrder,
};
use crate::seqs::{
    lemma_filter_push, lemma_filter_unique_keys, lemma_subrange_full, lemma_subrange_push,
};

verus! {

/// A team with an optional single lead.
#[derive(Debug)]
pub struct Team {
    pub id: u128,
    pub name: String,
    pub description: Option<String>,
    pub lead_id: Option<u128>,
    pub created_at: i64,
    pub updated_at: i64,
}

impl Team {
    pub fn new(name: String, description: Option<String>, lead_id: Option<u128>) -> (r: Team)
        ensures
            r.name == name,
            r.description == description,
            r.lead_id == lead_id,
            r.created_at == r.updated_at,
    {
        let now = now_micros();
        Team { id: fresh_id(), name, description, lead_id, created_at: now, updated_at: now }
    }

    /// Replaces the team's lead (or clears it with `None`).
    pub fn set_lead(&mut self, lead_id: Option<u128>)
        ensures
            final(self).lead_id == lead_id,
            final(self).id == old(self).id,
            final(self).name == old(self).name,
            final(self).description == old(self).description,
            final(self).created_at == old(self).created_at,
    {
        self.lead_id = lead_id;
        self.updated_at = now_micros();
    }
}

impl Clone for Team {
    fn clone(&self) -> (r: Self)
        ensures
            r == *self,
    {
        Team {
            id: self.id,
            name: self.name.clone(),
            description: match &self.description {
                Some(d) => Some(d.clone()),
                None => None,
            },
            lead_id: self.lead_id,
            created_at: self.created_at,
            updated_at: self.updated_at,
        }
    }
}

/// Membership join row of a team. The role field is recorded but never
/// consulted for permissions.
#[derive(Clone, Copy, Debug, PartialEq, Eq, Structural)]
pub struct TeamMember {
    pub id: u128,
    pub team_id: u128,
    pub user_id: u128,
    pub role: TeamMemberRole,
    pub joined_at: i64,
}

impl TeamMember {
    /// A fresh membership row; a missing role falls back to the
    /// default.
    pub fn new(team_id: u128, user_id: u128, role: Option<TeamMemberRole>) -> (r: TeamMember)
        ensures
            r.team_id == team_id,
            r.user_id == user_id,
            r.role == (match role {
                Some(ro) => ro,
                None => TeamMemberRole::Member,
            }),
    {
        TeamMember {
            id: fresh_id(),
            team_id,
            user_id,
            role: match role {
                Some(ro) => ro,
                None => TeamMemberRole::Member,
            },
            joined_at: now_micros(),
        }
    }
}

/// Team listings come newest first, by creation time.
impl ListOrder for Team {
    open spec fn spec_le(&self, other: &Self) -> bool {
        self.created_at >= other.created_at
    }

    proof fn lemma_total(a: &Self, b: &Self) {
    }

    proof fn lemma_trans(a: &Self, b: &Self, c: &Self) {
    }

    fn le(&self, other: &Self) -> bool {
        self.created_at >= other.created_at
    }
}

/// Membership listings come latest joiner first.
impl ListOrder for TeamMember {
    open spec fn spec_le(&self, other: &Self) -> bool {
        self.joined_at >= other.joined_at
    }

    proof fn lemma_total(a: &Self, b: &Self) {
    }

    proof fn lemma_trans(a: &Self, b: &Self, c: &Self) {
    }

    fn le(&self, other: &Self) -> bool {
        self.joined_at >= other.joined_at
    }
}

/// Whether a membership row links this team and user.
pub open spec fn spec_is_team_member(
    members: Seq<TeamMember>,
    team_id: u128,
    user_id: u128,
) -> bool {
    exists|i: int| 0 <= i < members.len()
        && members[i].team_id == team_id
        && members[i].user_id == user_id
}

/// Index of the team with the given identifier (meaningful only when
/// one exists; identifiers are unique in a well-formed store).
pub open spec fn team_idx(teams: Seq<Team>, id: u128) -> int {
    choose|i: int| 0 <= i < teams.len() && teams[i].id == id
}

/// In a store with unique identifiers, a contained team with the given
/// identifier sits at `team_idx`.
pub proof fn lemma_team_at_idx(teams: Seq<Team>, t: Team, id: u128)
    requires
        forall|i: int, j: int| 0 <= i < j < teams.len() ==> teams[i].id != teams[j].id,
        teams.contains(t),
        t.id == id,
    ensures
        0 <= team_idx(teams, id) < teams.len(),
        teams[team_idx(teams, id)] == t,
{
    let k = choose|k: int| 0 <= k < teams.len() && teams[k] == t;
    assert(0 <= k < teams.len() && teams[k].id == id);
    let i = team_idx(teams, id);
    assert(0 <= i < teams.len() && teams[i].id == id);
    if i != k {
        if i < k {
            assert(teams[i].id != teams[k].id);
        } else {
            assert(teams[k].id != teams[i].id);
        }
    }
}

/// In-memory team store: the teams and team membership tables. Team
/// identifiers are unique, as the primary key makes them.
pub struct TeamRepository {
    pub teams: Vec<Team>,
    pub members: Vec<TeamMember>,
}

impl TeamRepository {
    /// Store invariant: no two teams share an identifier.
    pub open spec fn wf(&self) -> bool {
        forall|i: int, j: int|
            0 <= i < j < self.teams@.len() ==> self.teams@[i].id != self.teams@[j].id
    }

    pub open spec fn spec_has_team(&self, id: u128) -> bool {
        exists|i: int| 0 <= i < self.teams@.len() && self.teams@[i].id == id
    }

    /// The user leads the team with this identifier.
    pub open spec fn spec_is_lead(&self, team_id: u128, user_id: u128) -> bool {
        exists|i: int| 0 <= i < self.teams@.len()
            && self.teams@[i].id == team_id
            && self.teams@[i].lead_id == Some(user_id)
    }

    /// The access relation: the team exists, and the user is its lead
    /// or appears in its membership rows.
    pub open spec fn spec_can_access(&self, team_id: u128, user_id: u128) -> bool {
        self.spec_is_lead(team_id, user_id) || (self.spec_has_team(team_id)
            && spec_is_team_member(self.members@, team_id, user_id))
    }

    pub fn new() -> (r: Self)
        ensures
            r.wf(),
            r.teams@.len() == 0,
            r.members@.len() == 0,
    {
        TeamRepository { teams: Vec::new(), members: Vec::new() }
    }

    pub fn find_by_id(&self, id: u128) -> (r: Option<Team>)
        ensures
            r is Some <==> self.spec_has_team(id),
            r matches Some(t) ==> t.id == id && self.teams@.contains(t),
    {
        let n = self.teams.len();
        let mut i: usize = 0;
        while i < n
            invariant
                i <= n,
                n == self.teams@.len(),
                forall|j: int| 0 <= j < i ==> self.teams@[j].id != id,
            decreases n - i,
        {
            if self.teams[i].id == id {
                return Some(self.teams[i].clone());
            }
            i = i + 1;
        }
        None
    }

    /// Every team, newest first.
    pub fn find_all(&self) -> (r: Vec<Team>)
        ensures
            r@.to_multiset() == self.teams@.to_multiset(),
            listed_in_order(r@),
    {
        let n = self.teams.len();
        let mut out: Vec<Team> = Vec::new();
        let mut i: usize = 0;
        while i < n
            invariant
                i <= n,
                n == self.teams@.len(),
                out@ == self.teams@.subrange(0, i as int),
            decreases n - i,
        {
            out.push(self.teams[i].clone());
            proof {
                lemma_subrange_push(self.teams@, i as int);
            }
            i = i + 1;
        }
        proof {
            lemma_subrange_full(self.teams@);
        }
        sort_in_order(out)
    }

    /// Whether a membership row links this team and user.
    pub fn is_member(&self, team_id: u128, user_id: u128) -> (r: bool)
        ensures
            r == spec_is_team_member(self.members@, team_id, user_id),
    {
        let n = self.members.len();
        let mut i: usize = 0;
        while i < n
            invariant
                i <= n,
                n == self.members@.len(),
                forall|j: int| 0 <= j < i ==> !(self.members@[j].team_id == team_id
                    && self.members@[j].user_id == user_id),
            decreases n - i,
        {
            if self.members[i].team_id == team_id && self.members[i].user_id == user_id {
                return true;
            }
            i = i + 1;
        }
        false
    }

    /// The union of led and member teams, deduplicated and newest
    /// first: each accessible team appears exactly once, even when the
    /// user is both lead and member.
    pub fn find_accessible_by_user(&self, user_id: u128) -> (r: Vec<Team>)
        requires
            self.wf(),
        ensures
            r@.to_multiset() == self.teams@.filter(
                |t: Team| t.lead_id == Some(user_id)
                    || spec_is_team_member(self.members@, t.id, user_id),
            ).to_multiset(),
            listed_in_order(r@),
            forall|i: int, j: int| 0 <= i < j < r@.len() ==> r@[i].id != r@[j].id,
    {
        let ghost pred = |t: Team| t.lead_id == Some(user_id)
            || spec_is_team_member(self.members@, t.id, user_id);
        let n = self.teams.len();
        let mut out: Vec<Team> = Vec::new();
        let mut i: usize = 0;
        while i < n
            invariant
                i <= n,
                n == self.teams@.len(),
                out@ == self.teams@.subrange(0, i as int).filter(pred),
            decreases n - i,
        {
            let leads = match self.teams[i].lead_id {
                Some(l) => l == user_id,
                None => false,
            };
            if leads || self.is_member(self.teams[i].id, user_id) {
                out.push(self.teams[i].clone());
            }
            proof {
                lemma_subrange_push(self.teams@, i as int);
                lemma_filter_push(self.teams@.subrange(0, i as int), self.teams@[i as int], pred);
            }
            i = i + 1;
        }
        proof {
            lemma_subrange_full(self.teams@);
            lemma_filter_unique_keys(self.teams@, pred, |t: Team| t.id);
        }
        let sorted = sort_in_order(out);
        proof {
            lemma_permutation_keeps_unique_keys(
                self.teams@.filter(pred),
                sorted@,
                |t: Team| t.id,
            );
        }
        sorted
    }

    /// Whether the user can access the team: it exists and the user is
    /// its lead or one of its members.
    pub fn can_user_access(&self, team_id: u128, user_id: u128) -> (r: bool)
        requires
            self.wf(),
        ensures
            r == self.spec_can_access(team_id, user_id),
    {
        let n = self.teams.len();
        let mut i: usize = 0;
        while i < n
            invariant
                i <= n,
                n == self.teams@.len(),
                forall|j: int| 0 <= j < i ==> self.teams@[j].id != team_id,
            decreases n - i,
        {
            if self.teams[i].id == team_id {
                proof {
                    assert forall|j: int|
                        0 <= j < self.teams@.len() && self.teams@[j].id == team_id
                        implies j == i as int by {
                        if j < i as int {
                            assert(self.teams@[j].id != self.teams@[i as int].id);
                        } else if j > i as int {
                            assert(self.teams@[i as int].id != self.teams@[j].id);
                        }
                    }
                }
                let leads = match self.teams[i].lead_id {
                    Some(l) => l == user_id,
                    None => false,
                };
                if leads {
                    return true;
                }
                return self.is_member(team_id, user_id);
            }
            i = i + 1;
        }
        false
    }

    /// Whether the user leads the team.
    pub fn is_lead(&self, team_id: u128, user_id: u128) -> (r: bool)
        ensures
            r == self.spec_is_lead(team_id, user_id),
    {
        let n = self.teams.len();
        let mut i: usize = 0;
        while i < n
            invariant
                i <= n,
                n == self.teams@.len(),
                forall|j: int| 0 <= j < i ==> !(self.teams@[j].id == team_id
                    && self.teams@[j].lead_id == Some(user_id)),
            decreases n - i,
        {
            let leads = match self.teams[i].lead_id {
                Some(l) => l == user_id,
                None => false,
            };
            if self.teams[i].id == team_id && leads {
                return true;
            }
            i = i + 1;
        }
        false
    }

    /// Inserts a team. A duplicate identifier is rejected as the
    /// primary key rejects it.
    pub fn create(&mut self, team: &Team) -> (r: Result<Team, DomainError>)
        requires
            old(self).wf(),
        ensures
            final(self).wf(),
            final(self).members@ == old(self).members@,
            old(self).spec_has_team(team.id) ==> (r matches Err(e)
                && e matches DomainError::AlreadyExists(m)
                && m@ == "Resource already exists"@
                && final(self).teams@ == old(self).teams@),
            !old(self).spec_has_team(team.id) ==> (r matches Ok(t) && t == *team
                && final(self).teams@ == old(self).teams@.push(*team)),
    {
        let n = self.teams.len();
        let mut i: usize = 0;
        while i < n
            invariant
                i <= n,
                n == self.teams@.len(),
                forall|j: int| 0 <= j < i ==> self.teams@[j].id != team.id,
            decreases n - i,
        {
            if self.teams[i].id == team.id {
                return Err(DomainError::AlreadyExists(
                    String::from_str("Resource already exists"),
                ));
            }
            i = i + 1;
        }
        self.teams.push(team.clone());
        Ok(team.clone())
    }

    /// Replaces the stored team with the same identifier; a missing row
    /// is reported as not found.
    pub fn update(&mut self, team: &Team) -> (r: Result<Team, DomainError>)
        requires
            old(self).wf(),
        ensures
            final(self).wf(),
            final(self).members@ == old(self).members@,
            !old(self).spec_has_team(team.id) ==> (r matches Err(e)
                && e matches DomainError::NotFound(m)
                && m@ == "Resource not found"@
                && final(self).teams@ == old(self).teams@),
            old(self).spec_has_team(team.id) ==> (r matches Ok(t) && t == *team
                && final(self).teams@ == old(self).teams@.update(
                team_idx(old(self).teams@, team.id),
                *team,
            )),
    {
        let n = self.teams.len();
        let mut i: usize = 0;
        while i < n
            invariant
                i <= n,
                n == self.teams@.len(),
                self.teams@ == old(self).teams@,
                self.members@ == old(self).members@,
                forall|j: int| 0 <= j < i ==> self.teams@[j].id != team.id,
            decreases n - i,
        {
            if self.teams[i].id == team.id {
                proof {
                    lemma_team_at_idx(self.teams@, self.teams@[i as int], team.id);
                }
                self.teams.set(i, team.clone());
                proof {
                    assert forall|p: int, q: int|
                        0 <= p < q < self.teams@.len() implies self.teams@[p].id
                        != self.teams@[q].id by {
                        assert(old(self).teams@[p].id != old(self).teams@[q].id);
                    }
                }
                return Ok(team.clone());
            }
            i = i + 1;
        }
        Err(DomainError::NotFound(String::from_str("Resource not found")))
    }

    /// Deletes the team with this identifier; deleting a missing team
    /// is not an error.
    pub fn delete(&mut self, id: u128) -> (r: Result<(), DomainError>)
        requires
            old(self).wf(),
        ensures
            final(self).wf(),
            final(self).members@ == old(self).members@,
            r is Ok,
            !old(self).spec_has_team(id) ==> final(self).teams@ == old(self).teams@,
            old(self).spec_has_team(id) ==> final(self).teams@ == old(self).teams@.remove(
                team_idx(old(self).teams@, id),
            ),
    {
        let n = self.teams.len();
        let mut i: usize = 0;
        while i < n
            invariant
                i <= n,
                n == self.teams@.len(),
                self.teams@ == old(self).teams@,
                self.members@ == old(self).members@,
                forall|j: int| 0 <= j < i ==> self.teams@[j].id != id,
            decreases n - i,
        {
            if self.teams[i].id == id {
                proof {
                    lemma_team_at_idx(self.teams@, self.teams@[i as int], id);
                }
                self.teams.remove(i);
                proof {
                    assert forall|p: int, q: int|
                        0 <= p < q < self.teams@.len() implies self.teams@[p].id
                        != self.teams@[q].id by {
                        let op: int = if p < i { p } else { p + 1 };
                        let oq: int = if q < i { q } else { q + 1 };
                        assert(self.teams@[p] == old(self).teams@[op]);
                        assert(self.teams@[q] == old(self).teams@[oq]);
                    }
                }
                return Ok(());
            }
            i = i + 1;
        }
        Ok(())
    }

    /// Membership rows of the team, latest joiner first.
    pub fn find_members(&self, team_id: u128) -> (r: Vec<TeamMember>)
        ensures
            r@.to_multiset() == self.members@.filter(
                |m: TeamMember| m.team_id == team_id,
            ).to_multiset(),
            listed_in_order(r@),
    {
        let ghost pred = |m: TeamMember| m.team_id == team_id;
        let n = self.members.len();
        let mut out: Vec<TeamMember> = Vec::new();
        let mut i: usize = 0;
        while i < n
            invariant
                i <= n,
                n == self.members@.len(),
                out@ == self.members@.subrange(0, i as int).filter(pred),
            decreases n - i,
        {
            if self.members[i].team_id == team_id {
                out.push(self.members[i]);
            }
            proof {
                lemma_subrange_push(self.members@, i as int);
                lemma_filter_push(
                    self.members@.subrange(0, i as int),
                    self.members@[i as int],
                    pred,
                );
            }
            i = i + 1;
        }
        proof {
            lemma_subrange_full(self.members@);
        }
        sort_in_order(out)
    }

    /// Adds a membership row. A duplicate team-user pair is rejected as
    /// the unique key rejects it.
    pub fn add_member(&mut self, member: &TeamMember) -> (r: Result<TeamMember, DomainError>)
        ensures
            final(self).teams@ == old(self).teams@,
            spec_is_team_member(old(self).members@, member.team_id, member.user_id)
                ==> (r matches Err(e)
                && e matches DomainError::AlreadyExists(m)
                && m@ == "Resource already exists"@
                && final(self).members@ == old(self).members@),
            !spec_is_team_member(old(self).members@, member.team_id, member.user_id)
                ==> (r matches Ok(tm) && tm == *member
                && final(self).members@ == old(self).members@.push(*member)),
    {
        if self.is_member(member.team_id, member.user_id) {
            return Err(DomainError::AlreadyExists(
                String::from_str("Resource already exists"),
            ));
        }
        self.members.push(*member);
        Ok(*member)
    }

    /// Removes the membership rows of this team-user pair; removing a
    /// missing pair is not an error.
    pub fn remove_member(&mut self, team_id: u128, user_id: u128) -> (r: Result<
        (),
        DomainError,
    >)
        ensures
            final(self).teams@ == old(self).teams@,
            final(self).members@ == old(self).members@.filter(
                |m: TeamMember| !(m.team_id == team_id && m.user_id == user_id),
            ),
            r is Ok,
    {
        let ghost pred = |m: TeamMember| !(m.team_id == team_id && m.user_id == user_id);
        let n = self.members.len();
        let mut kept: Vec<TeamMember> = Vec::new();
        let mut i: usize = 0;
        while i < n
            invariant
                i <= n,
                n == self.members@.len(),
                kept@ == self.members@.subrange(0, i as int).filter(pred),
            decreases n - i,
        {
            if !(self.members[i].team_id == team_id && self.members[i].user_id == user_id) {
                kept.push(self.members[i]);
            }
            proof {
                lemma_subrange_push(self.members@, i as int);
                lemma_filter_push(
                    self.members@.subrange(0, i as int),
                    self.members@[i as int],
                    pred,
                );
            }
            i = i + 1;
        }
        proof {
            lemma_subrange_full(self.members@);
        }
        self.members = kept;
        Ok(())
    }
}

/// How a stored team and an update command combine into the updated
/// team. The lead is replaced only when one is given.
pub open spec fn spec_team_updated(before: Team, cmd: UpdateTeamCommand, after: Team) -> bool {
    &&& after.id == before.id
    &&& after.created_at == before.created_at
    &&& after.name == (match cmd.name {
        Some(n) => n,
        None => before.name,
    })
    &&& after.description == (match cmd.description {
        Some(d) => Some(d),
        None => before.description,
    })
    &&& after.lead_id == (if cmd.lead_id is Some {
        cmd.lead_id
    } else {
        before.lead_id
    })
}

/// Team use cases: list, access predicates, fetch, create, partial
/// update, delete, and membership management.
pub struct TeamAppService {
    pub team_repository: TeamRepository,
}

impl TeamAppService {
    pub fn new(team_repository: TeamRepository) -> (r: Self)
        ensures
            r.team_repository == team_repository,
    {
        TeamAppService { team_repository }
    }

    /// Every team, newest first; the callers reserve this for
    /// administrators.
    pub fn list_teams(&self) -> (r: Result<Vec<Team>, DomainError>)
        ensures
            r matches Ok(v) && v@.to_multiset() == self.team_repository.teams@.to_multiset(),
            r matches Ok(v) ==> listed_in_order(v@),
    {
        Ok(self.team_repository.find_all())
    }

    /// Teams the user leads or is a member of, each exactly once.
    pub fn list_accessible_teams(&self, user_id: u128) -> (r: Result<Vec<Team>, DomainError>)
        requires
            self.team_repository.wf(),
        ensures
            r matches Ok(v) && v@.to_multiset() == self.team_repository.teams@.filter(
                |t: Team| t.lead_id == Some(user_id)
                    || spec_is_team_member(self.team_repository.members@, t.id, user_id),
            ).to_multiset(),
            r matches Ok(v) ==> listed_in_order(v@),
            r matches Ok(v) ==> forall|i: int, j: int|
                0 <= i < j < v@.len() ==> v@[i].id != v@[j].id,
    {
        Ok(self.team_repository.find_accessible_by_user(user_id))
    }

    pub fn can_user_access(&self, team_id: u128, user_id: u128) -> (r: Result<
        bool,
        DomainError,
    >)
        requires
            self.team_repository.wf(),
        ensures
            r matches Ok(b) && b == self.team_repository.spec_can_access(team_id, user_id),
    {
        Ok(self.team_repository.can_user_access(team_id, user_id))
    }

    pub fn is_lead(&self, team_id: u128, user_id: u128) -> (r: Result<bool, DomainError>)
        ensures
            r matches Ok(b) && b == self.team_repository.spec_is_lead(team_id, user_id),
    {
        Ok(self.team_repository.is_lead(team_id, user_id))
    }

    pub fn get_team(&self, id: u128) -> (r: Result<Team, DomainError>)
        ensures
            r is Ok <==> self.team_repository.spec_has_team(id),
            r matches Ok(t) ==> t.id == id && self.team_repository.teams@.contains(t),
            r matches Err(e) ==> (e matches DomainError::NotFound(m)
                && m@ == "Team not found"@),
    {
        match self.team_repository.find_by_id(id) {
            Some(t) => Ok(t),
            None => Err(DomainError::NotFound(String::from_str("Team not found"))),
        }
    }

    pub fn create_team(&mut self, cmd: CreateTeamCommand) -> (r: Result<Team, DomainError>)
        requires
            old(self).team_repository.wf(),
        ensures
            final(self).team_repository.wf(),
            final(self).team_repository.members@ == old(self).team_repository.members@,
            r matches Ok(t) ==> t.name@ == cmd.name@ && t.description == cmd.description
                && t.lead_id == cmd.lead_id
                && final(self).team_repository.teams@
                    == old(self).team_repository.teams@.push(t),
            r matches Err(e) ==> e is AlreadyExists
                && final(self).team_repository.teams@ == old(self).team_repository.teams@,
    {
        let team = Team::new(cmd.name, cmd.description, cmd.lead_id);
        self.team_repository.create(&team)
    }

    /// Applies a partial update to an existing team.
    pub fn update_team(&mut self, id: u128, cmd: UpdateTeamCommand) -> (r: Result<
        Team,
        DomainError,
    >)
        requires
            old(self).team_repository.wf(),
        ensures
            final(self).team_repository.wf(),
            final(self).team_repository.members@ == old(self).team_repository.members@,
            !old(self).team_repository.spec_has_team(id) ==> (r matches Err(e)
                && e matches DomainError::NotFound(m)
                && m@ == "Team not found"@
                && final(self).team_repository.teams@ == old(self).team_repository.teams@),
            old(self).team_repository.spec_has_team(id) ==> (r matches Ok(t)
                && spec_team_updated(
                old(self).team_repository.teams@[team_idx(old(self).team_repository.teams@, id)],
                cmd,
                t,
            )
                && final(self).team_repository.teams@
                    == old(self).team_repository.teams@.update(
                team_idx(old(self).team_repository.teams@, id),
                t,
            )),
    {
        let team_opt = self.team_repository.find_by_id(id);
        let mut team = match team_opt {
            Some(t) => t,
            None => {
                return Err(DomainError::NotFound(String::from_str("Team not found")));
            },
        };
        proof {
            lemma_team_at_idx(self.team_repository.teams@, team, id);
        }
        if let Some(name) = cmd.name {
            team.name = name;
        }
        if let Some(description) = cmd.description {
            team.description = Some(description);
        }
        if cmd.lead_id.is_some() {
            team.set_lead(cmd.lead_id);
        }
        self.team_repository.update(&team)
    }

    /// Deletes a team that exists; a missing one is reported as not
    /// found.
    pub fn delete_team(&mut self, id: u128) -> (r: Result<(), DomainError>)
        requires
            old(self).team_repository.wf(),
        ensures
            final(self).team_repository.wf(),
            final(self).team_repository.members@ == old(self).team_repository.members@,
            !old(self).team_repository.spec_has_team(id) ==> (r matches Err(e)
                && e matches DomainError::NotFound(m)
                && m@ == "Team not found"@
                && final(self).team_repository.teams@ == old(self).team_repository.teams@),
            old(self).team_repository.spec_has_team(id) ==> (r is Ok
                && final(self).team_repository.teams@ == old(self).team_repository.teams@.remove(
                team_idx(old(self).team_repository.teams@, id),
            )),
    {
        match self.team_repository.find_by_id(id) {
            Some(_) => {},
            None => {
                return Err(DomainError::NotFound(String::from_str("Team not found")));
            },
        }
        self.team_repository.delete(id)
    }

    /// Membership rows of a team that exists.
    pub fn get_team_members(&self, team_id: u128) -> (r: Result<Vec<TeamMember>, DomainError>)
        ensures
            !self.team_repository.spec_has_team(team_id) ==> (r matches Err(e)
                && e matches DomainError::NotFound(m)
                && m@ == "Team not found"@),
            self.team_repository.spec_has_team(team_id) ==> (r matches Ok(v)
                && v@.to_multiset() == self.team_repository.members@.filter(
                |m: TeamMember| m.team_id == team_id,
            ).to_multiset() && listed_in_order(v@)),
    {
        match self.team_repository.find_by_id(team_id) {
            Some(_) => {},
            None => {
                return Err(DomainError::NotFound(String::from_str("Team not found")));
            },
        }
        Ok(self.team_repository.find_members(team_id))
    }

    /// Adds a user to a team that exists.
    pub fn add_team_member(&mut self, team_id: u128, cmd: AddTeamMemberCommand) -> (r: Result<
        TeamMember,
        DomainError,
    >)
        ensures
            final(self).team_repository.teams@ == old(self).team_repository.teams@,
            !old(self).team_repository.spec_has_team(team_id) ==> (r matches Err(e)
                && e matches DomainError::NotFound(m)
                && m@ == "Team not found"@
                && final(self).team_repository.members@
                    == old(self).team_repository.members@),
            old(self).team_repository.spec_has_team(team_id) && spec_is_team_member(
                old(self).team_repository.members@,
                team_id,
                cmd.user_id,
            ) ==> (r matches Err(e) && e is AlreadyExists
                && final(self).team_repository.members@
                    == old(self).team_repository.members@),
            old(self).team_repository.spec_has_team(team_id) && !spec_is_team_member(
                old(self).team_repository.members@,
                team_id,
                cmd.user_id,
            ) ==> (r matches Ok(tm) && tm.team_id == team_id && tm.user_id == cmd.user_id
                && tm.role == (match cmd.role {
                Some(ro) => ro,
                None => TeamMemberRole::Member,
            })
                && final(self).team_repository.members@
                    == old(self).team_repository.members@.push(tm)),
    {
        match self.team_repository.find_by_id(team_id) {
            Some(_) => {},
            None => {
                return Err(DomainError::NotFound(String::from_str("Team not found")));
            },
        }
        let member = TeamMember::new(team_id, cmd.user_id, cmd.role);
        self.team_repository.add_member(&member)
    }

    /// Removes a user from a team; removing a missing membership is not
    /// an error.
    pub fn remove_team_member(&mut self, team_id: u128, user_id: u128) -> (r: Result<
        (),
        DomainError,
    >)
        ensures
            final(self).team_repository.teams@ == old(self).team_repository.teams@,
            final(self).team_repository.members@ == old(self).team_repository.members@.filter(
                |m: TeamMember| !(m.team_id == team_id && m.user_id == user_id),
            ),
            r is Ok,
    {
        self.team_repository.remove_member(team_id, user_id)
    }
}

} // verus!
