//! Users: the account entity. The role is the only global permission
//! signal; the password is stored only as an encoded hash.

use vstd::prelude::*;

use crate::email::Email;
use crate::enums::UserRole;
use crate::fresh::{fresh_id, now_micros};

verus! {

#[derive(Debug)]
pub struct User {
    pub id: u128,
    pub email: Email,
    pub password_hash: String,
    pub name: String,
    pub role: UserRole,
    pub avatar_url: Option<String>,
    pub created_at: i64,
    pub updated_at: i64,
}

impl User {
    /// A fresh account; a missing role falls back to the default.
    pub fn new(email: Email, password_hash: String, name: String, role: Option<UserRole>) -> (r:
        User)
        ensures
            r.email@ == email@,
            r.password_hash == password_hash,
            r.name == name,
            r.role == (match role {
                Some(ro) => ro,
                None => UserRole::Member,
            }),
            r.avatar_url is None,
            r.created_at == r.updated_at,
    {
        let now = now_micros();
        User {
            id: fresh_id(),
            email,
            password_hash,
            name,
            role: match role {
                Some(ro) => ro,
                None => UserRole::Member,
            },
            avatar_url: None,
            created_at: now,
            updated_at: now,
        }
    }
}

/// No two users share an identifier.
pub open spec fn spec_users_unique(users: Seq<User>) -> bool {
    forall|i: int, j: int| 0 <= i < j < users.len() ==> users[i].id != users[j].id
}

/// Index of the user with the given identifier (meaningful only when
/// one exists among unique identifiers).
pub open spec fn user_idx(users: Seq<User>, id: u128) -> int {
    choose|i: int| 0 <= i < users.len() && users[i].id == id
}

/// Among users with unique identifiers, a user with the given
/// identifier sits at `user_idx`.
pub proof fn lemma_user_at_idx(users: Seq<User>, id: u128)
    requires
        spec_users_unique(users),
        exists|i: int| 0 <= i < users.len() && users[i].id == id,
    ensures
        0 <= user_idx(users, id) < users.len(),
        users[user_idx(users, id)].id == id,
        forall|j: int| 0 <= j < users.len() && users[j].id == id ==> j == user_idx(users, id),
{
    let i = user_idx(users, id);
    assert(0 <= i < users.len() && users[i].id == id);
    assert forall|j: int| 0 <= j < users.len() && users[j].id == id implies j == i by {
        if j < i {
            assert(users[j].id != users[i].id);
        } else if j > i {
            assert(users[i].id != users[j].id);
        }
    }
}

} // verus!
