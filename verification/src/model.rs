//! Identity records: users and the bearer tokens bound to them.

use vstd::prelude::*;

verus! {

/// An identity record. The id is stable, assigned at creation and never
/// reused; the username is unique and case-sensitive; the password hash is
/// opaque and never exposed outside the core.
#[derive(Debug)]
pub struct User {
    pub id: i64,
    pub username: String,
    pub password_hash: String,
    pub is_admin: bool,
    pub is_private: bool,
    pub created_at: i64,
}

impl Clone for User {
    fn clone(&self) -> (r: Self)
        ensures
            r == *self,
    {
        User {
            id: self.id,
            username: self.username.clone(),
            password_hash: self.password_hash.clone(),
            is_admin: self.is_admin,
            is_private: self.is_private,
            created_at: self.created_at,
        }
    }
}

/// A bearer credential bound to exactly one user. The token string is
/// unique across all tokens ever stored; `revoked` only moves from false
/// to true and is never reversed.
#[derive(Debug)]
pub struct ApiToken {
    pub id: i64,
    pub user_id: i64,
    pub token: String,
    pub label: Option<String>,
    pub created_at: i64,
    pub last_used_at: Option<i64>,
    pub revoked: bool,
}

impl Clone for ApiToken {
    fn clone(&self) -> (r: Self)
        ensures
            r == *self,
    {
        ApiToken {
            id: self.id,
            user_id: self.user_id,
            token: self.token.clone(),
            label: match &self.label {
                Some(l) => Some(l.clone()),
                None => None,
            },
            created_at: self.created_at,
            last_used_at: self.last_used_at,
            revoked: self.revoked,
        }
    }
}

} // verus!
