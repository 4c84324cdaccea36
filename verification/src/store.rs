//! Identity store: the narrow set of persistence operations the core
//! needs, realized over in-memory tables with the same row-level
//! guarantees the relational schema enforces (unique usernames, unique
//! token strings, ids never reused, tokens always owned by a live user).

use vstd::prelude::*;
use crate::model::{ApiToken, User};
use crate::text::str_eq;

verus! {

/// A failure of a single store operation, mirroring the constraints the
/// schema enforces atomically at the row level.
#[derive(Clone, Copy, Debug, PartialEq, Eq, Structural)]
pub enum StoreError {
    /// The username column's uniqueness constraint fired.
    DuplicateUsername,
    /// The token column's uniqueness constraint fired.
    DuplicateToken,
    /// The token's owning user does not exist.
    UnknownUser,
    /// No fresh id is left to assign.
    IdSpaceExhausted,
}

/// Some user in `users` is named `name`.
pub open spec fn has_user_named(users: Seq<User>, name: Seq<char>) -> bool {
    exists|i: int| 0 <= i < users.len() && (#[trigger] users[i]).username@ == name
}

/// Some user in `users` has id `id`.
pub open spec fn has_user_id(users: Seq<User>, id: i64) -> bool {
    exists|i: int| 0 <= i < users.len() && (#[trigger] users[i]).id == id
}

/// Some token record in `tokens` carries the string `t`, revoked or not.
pub open spec fn has_token_string(tokens: Seq<ApiToken>, t: Seq<char>) -> bool {
    exists|i: int| 0 <= i < tokens.len() && (#[trigger] tokens[i]).token@ == t
}

/// Some non-revoked token record in `tokens` carries the string `t`.
pub open spec fn has_active_token(tokens: Seq<ApiToken>, t: Seq<char>) -> bool {
    exists|i: int|
        0 <= i < tokens.len() && (#[trigger] tokens[i]).token@ == t && !tokens[i].revoked
}

/// Some non-revoked token record carries the string `t` and belongs to
/// user `uid`.
pub open spec fn active_token_owner(tokens: Seq<ApiToken>, t: Seq<char>, uid: i64) -> bool {
    exists|i: int|
        0 <= i < tokens.len() && (#[trigger] tokens[i]).token@ == t && !tokens[i].revoked
            && tokens[i].user_id == uid
}

/// The in-memory identity store. It always reflects current truth: no
/// caching sits between a revocation and the next lookup.
pub struct IdentityStore {
    pub users: Vec<User>,
    pub tokens: Vec<ApiToken>,
    pub next_user_id: i64,
    pub next_token_id: i64,
}

impl IdentityStore {
    /// Well-formedness: ids are positive, below the next free id and
    /// distinct; usernames are distinct; token strings are distinct across
    /// all tokens ever stored, revoked ones included; every token belongs
    /// to a live user.
    pub open spec fn wf(self) -> bool {
        &&& 0 < self.next_user_id
        &&& 0 < self.next_token_id
        &&& forall|i: int|
            0 <= i < self.users@.len() ==> 0 < (#[trigger] self.users@[i]).id
                < self.next_user_id
        &&& forall|i: int, j: int|
            #![trigger self.users@[i].id, self.users@[j].id]
            0 <= i < j < self.users@.len() ==> self.users@[i].id != self.users@[j].id
        &&& forall|i: int, j: int|
            #![trigger self.users@[i].username, self.users@[j].username]
            0 <= i < j < self.users@.len() ==> self.users@[i].username@
                != self.users@[j].username@
        &&& forall|i: int|
            0 <= i < self.tokens@.len() ==> 0 < (#[trigger] self.tokens@[i]).id
                < self.next_token_id
        &&& forall|i: int, j: int|
            #![trigger self.tokens@[i].id, self.tokens@[j].id]
            0 <= i < j < self.tokens@.len() ==> self.tokens@[i].id != self.tokens@[j].id
        &&& forall|i: int, j: int|
            #![trigger self.tokens@[i].token, self.tokens@[j].token]
            0 <= i < j < self.tokens@.len() ==> self.tokens@[i].token@
                != self.tokens@[j].token@
        &&& forall|i: int|
            0 <= i < self.tokens@.len() ==> has_user_id(
                self.users@,
                (#[trigger] self.tokens@[i]).user_id,
            )
    }

    /// An empty store.
    pub fn new() -> (s: Self)
        ensures
            s.wf(),
            s.users@.len() == 0,
            s.tokens@.len() == 0,
    {
        IdentityStore { users: Vec::new(), tokens: Vec::new(), next_user_id: 1, next_token_id: 1 }
    }

    fn find_user_index_by_name(&self, name: &str) -> (r: Option<usize>)
        ensures
            match r {
                Some(i) => i < self.users@.len() && self.users@[i as int].username@ == name@,
                None => !has_user_named(self.users@, name@),
            },
    {
        let n = self.users.len();
        let mut i: usize = 0;
        while i < n
            invariant
                n == self.users@.len(),
                i <= n,
                forall|j: int| 0 <= j < i ==> (#[trigger] self.users@[j]).username@ != name@,
            decreases n - i,
        {
            if str_eq(self.users[i].username.as_str(), name) {
                return Some(i);
            }
            i += 1;
        }
        None
    }

    fn find_user_index_by_id(&self, id: i64) -> (r: Option<usize>)
        ensures
            match r {
                Some(i) => i < self.users@.len() && self.users@[i as int].id == id,
                None => !has_user_id(self.users@, id),
            },
    {
        let n = self.users.len();
        let mut i: usize = 0;
        while i < n
            invariant
                n == self.users@.len(),
                i <= n,
                forall|j: int| 0 <= j < i ==> (#[trigger] self.users@[j]).id != id,
            decreases n - i,
        {
            if self.users[i].id == id {
                return Some(i);
            }
            i += 1;
        }
        None
    }

    fn find_token_index_by_string(&self, token: &str) -> (r: Option<usize>)
        ensures
            match r {
                Some(i) => i < self.tokens@.len() && self.tokens@[i as int].token@ == token@,
                None => !has_token_string(self.tokens@, token@),
            },
    {
        let n = self.tokens.len();
        let mut i: usize = 0;
        while i < n
            invariant
                n == self.tokens@.len(),
                i <= n,
                forall|j: int| 0 <= j < i ==> (#[trigger] self.tokens@[j]).token@ != token@,
            decreases n - i,
        {
            if str_eq(self.tokens[i].token.as_str(), token) {
                return Some(i);
            }
            i += 1;
        }
        None
    }

    /// Look a user up by name.
    pub fn find_user_by_name(&self, name: &str) -> (r: Option<User>)
        ensures
            match r {
                Some(u) => u.username@ == name@ && self.users@.contains(u),
                None => !has_user_named(self.users@, name@),
            },
    {
        match self.find_user_index_by_name(name) {
            Some(i) => {
                let u = self.users[i].clone();
                proof {
                    assert(self.users@[i as int] == u);
                }
                Some(u)
            },
            None => None,
        }
    }

    /// Look a user up by id.
    pub fn find_user_by_id(&self, id: i64) -> (r: Option<User>)
        ensures
            match r {
                Some(u) => u.id == id && self.users@.contains(u),
                None => !has_user_id(self.users@, id),
            },
    {
        match self.find_user_index_by_id(id) {
            Some(i) => {
                let u = self.users[i].clone();
                proof {
                    assert(self.users@[i as int] == u);
                }
                Some(u)
            },
            None => None,
        }
    }

    /// Insert a new user. The admin flag is computed inside the operation
    /// — the first user of an empty store becomes admin — so concurrent
    /// signups cannot both observe an empty table.
    pub fn insert_user(&mut self, username: &str, password_hash: &str, now: i64) -> (r: Result<
        User,
        StoreError,
    >)
        requires
            old(self).wf(),
        ensures
            final(self).wf(),
            r is Ok <==> !has_user_named(old(self).users@, username@) && old(self).next_user_id
                < i64::MAX,
            match r {
                Ok(u) => {
                    &&& u.id == old(self).next_user_id
                    &&& u.username@ == username@
                    &&& u.password_hash@ == password_hash@
                    &&& u.is_admin == (old(self).users@.len() == 0)
                    &&& u.is_private == false
                    &&& u.created_at == now
                    &&& final(self).users@ == old(self).users@.push(u)
                    &&& final(self).tokens@ == old(self).tokens@
                },
                Err(StoreError::DuplicateUsername) => has_user_named(old(self).users@, username@)
                    && *final(self) == *old(self),
                Err(StoreError::IdSpaceExhausted) => !has_user_named(old(self).users@, username@)
                    && *final(self) == *old(self),
                Err(_) => false,
            },
    {
        match self.find_user_index_by_name(username) {
            Some(_) => {
                return Err(StoreError::DuplicateUsername);
            },
            None => {},
        }
        if self.next_user_id == i64::MAX {
            return Err(StoreError::IdSpaceExhausted);
        }
        let id = self.next_user_id;
        let is_admin = self.users.len() == 0;
        let u = User {
            id,
            username: String::from_str(username),
            password_hash: String::from_str(password_hash),
            is_admin,
            is_private: false,
            created_at: now,
        };
        let record = u.clone();
        self.users.push(u);
        self.next_user_id = id + 1;
        proof {
            let pre = old(self).users@;
            let post = self.users@;
            assert(post == pre.push(record));
            assert forall|i: int, j: int|
                #![trigger post[i].id, post[j].id]
                0 <= i < j < post.len() implies post[i].id != post[j].id by {
                if j < pre.len() {
                } else {
                    assert(post[j] == record);
                    assert(post[i] == pre[i]);
                }
            }
            assert forall|i: int, j: int|
                #![trigger post[i].username, post[j].username]
                0 <= i < j < post.len() implies post[i].username@ != post[j].username@ by {
                if j < pre.len() {
                } else {
                    assert(post[j] == record);
                    assert(post[i] == pre[i]);
                }
            }
            assert forall|i: int|
                0 <= i < self.tokens@.len() implies has_user_id(
                post,
                (#[trigger] self.tokens@[i]).user_id,
            ) by {
                assert(has_user_id(pre, self.tokens@[i].user_id));
                let w = choose|k: int|
                    0 <= k < pre.len() && (#[trigger] pre[k]).id == self.tokens@[i].user_id;
                assert(post[w].id == self.tokens@[i].user_id);
            }
        }
        Ok(record)
    }

    /// Insert a new token record for a user. Fails when the token string
    /// is already present (unique column, revoked rows included), when the
    /// user does not exist, or when the id space is spent.
    pub fn insert_token(&mut self, user_id: i64, token: &str, label: Option<&str>, now: i64) -> (r:
        Result<ApiToken, StoreError>)
        requires
            old(self).wf(),
        ensures
            final(self).wf(),
            r is Ok <==> !has_token_string(old(self).tokens@, token@) && has_user_id(
                old(self).users@,
                user_id,
            ) && old(self).next_token_id < i64::MAX,
            match r {
                Ok(t) => {
                    &&& t.id == old(self).next_token_id
                    &&& t.user_id == user_id
                    &&& t.token@ == token@
                    &&& match (label, t.label) {
                        (Some(l), Some(tl)) => tl@ == l@,
                        (None, None) => true,
                        _ => false,
                    }
                    &&& t.created_at == now
                    &&& t.last_used_at is None
                    &&& t.revoked == false
                    &&& final(self).tokens@ == old(self).tokens@.push(t)
                    &&& final(self).users@ == old(self).users@
                },
                Err(StoreError::DuplicateToken) => has_token_string(old(self).tokens@, token@)
                    && *final(self) == *old(self),
                Err(StoreError::UnknownUser) => !has_token_string(old(self).tokens@, token@)
                    && !has_user_id(old(self).users@, user_id) && *final(self) == *old(self),
                Err(StoreError::IdSpaceExhausted) => !has_token_string(old(self).tokens@, token@)
                    && has_user_id(old(self).users@, user_id) && *final(self) == *old(self),
                Err(_) => false,
            },
            forall|t: Seq<char>|
                #[trigger] has_active_token(final(self).tokens@, t) && t != token@
                    ==> has_active_token(old(self).tokens@, t),
            forall|t: Seq<char>|
                #[trigger] has_active_token(old(self).tokens@, t) ==> has_active_token(
                    final(self).tokens@,
                    t,
                ),
    {
        match self.find_token_index_by_string(token) {
            Some(_) => {
                return Err(StoreError::DuplicateToken);
            },
            None => {},
        }
        match self.find_user_index_by_id(user_id) {
            Some(_) => {},
            None => {
                return Err(StoreError::UnknownUser);
            },
        }
        if self.next_token_id == i64::MAX {
            return Err(StoreError::IdSpaceExhausted);
        }
        let id = self.next_token_id;
        let t = ApiToken {
            id,
            user_id,
            token: String::from_str(token),
            label: match label {
                Some(l) => Some(String::from_str(l)),
                None => None,
            },
            created_at: now,
            last_used_at: None,
            revoked: false,
        };
        let record = t.clone();
        self.tokens.push(t);
        self.next_token_id = id + 1;
        proof {
            let pre = old(self).tokens@;
            let post = self.tokens@;
            assert(post == pre.push(record));
            assert forall|i: int, j: int|
                #![trigger post[i].id, post[j].id]
                0 <= i < j < post.len() implies post[i].id != post[j].id by {
                if j < pre.len() {
                } else {
                    assert(post[j] == record);
                    assert(post[i] == pre[i]);
                }
            }
            assert forall|i: int, j: int|
                #![trigger post[i].token, post[j].token]
                0 <= i < j < post.len() implies post[i].token@ != post[j].token@ by {
                if j < pre.len() {
                } else {
                    assert(post[j] == record);
                    assert(post[i] == pre[i]);
                }
            }
            assert forall|s: Seq<char>|
                #[trigger] has_active_token(post, s) && s != token@ implies has_active_token(
                pre,
                s,
            ) by {
                let w = choose|k: int|
                    0 <= k < post.len() && (#[trigger] post[k]).token@ == s && !post[k].revoked;
                assert(w < pre.len());
                assert(pre[w] == post[w]);
            }
            assert forall|s: Seq<char>| #[trigger]
                has_active_token(pre, s) implies has_active_token(post, s) by {
                let w = choose|k: int|
                    0 <= k < pre.len() && (#[trigger] pre[k]).token@ == s && !pre[k].revoked;
                assert(post[w] == pre[w]);
            }
        }
        Ok(record)
    }

    /// Find the owner of a non-revoked token string, or nothing. Revoked
    /// records are excluded here, which is what makes a revocation visible
    /// to the very next lookup.
    pub fn find_active_token(&self, token: &str) -> (r: Option<i64>)
        requires
            self.wf(),
        ensures
            match r {
                Some(uid) => active_token_owner(self.tokens@, token@, uid),
                None => !has_active_token(self.tokens@, token@),
            },
    {
        let n = self.tokens.len();
        let mut i: usize = 0;
        while i < n
            invariant
                n == self.tokens@.len(),
                i <= n,
                forall|j: int|
                    0 <= j < i ==> !((#[trigger] self.tokens@[j]).token@ == token@
                        && !self.tokens@[j].revoked),
            decreases n - i,
        {
            if !self.tokens[i].revoked && str_eq(self.tokens[i].token.as_str(), token) {
                return Some(self.tokens[i].user_id);
            }
            i += 1;
        }
        None
    }

    /// Record a use of a token: best-effort update of `last_used_at` on
    /// the record carrying this string. Nothing else changes; in
    /// particular no token becomes active or inactive.
    pub fn touch_token(&mut self, token: &str, now: i64)
        requires
            old(self).wf(),
        ensures
            final(self).wf(),
            final(self).users@ == old(self).users@,
            final(self).next_user_id == old(self).next_user_id,
            final(self).next_token_id == old(self).next_token_id,
            final(self).tokens@.len() == old(self).tokens@.len(),
            forall|i: int|
                0 <= i < old(self).tokens@.len() && (#[trigger] old(self).tokens@[i]).token@
                    != token@ ==> final(self).tokens@[i] == old(self).tokens@[i],
            forall|i: int|
                0 <= i < old(self).tokens@.len() && (#[trigger] old(self).tokens@[i]).token@
                    == token@ ==> {
                    let pre = old(self).tokens@[i];
                    let post = final(self).tokens@[i];
                    &&& post.id == pre.id
                    &&& post.user_id == pre.user_id
                    &&& post.token == pre.token
                    &&& post.label == pre.label
                    &&& post.created_at == pre.created_at
                    &&& post.revoked == pre.revoked
                    &&& post.last_used_at == Some(now)
                },
            forall|t: Seq<char>|
                #[trigger] has_active_token(final(self).tokens@, t) == has_active_token(
                    old(self).tokens@,
                    t,
                ),
    {
        match self.find_token_index_by_string(token) {
            Some(i) => {
                self.tokens[i].last_used_at = Some(now);
                proof {
                    let pre = old(self).tokens@;
                    let post = self.tokens@;
                    assert forall|j: int|
                        0 <= j < pre.len() && (#[trigger] pre[j]).token@ != token@ implies post[j]
                        == pre[j] by {
                        assert(j != i);
                    }
                    assert forall|t: Seq<char>|
                        #[trigger] has_active_token(post, t) == has_active_token(pre, t) by {
                        if has_active_token(post, t) {
                            let w = choose|k: int|
                                0 <= k < post.len() && (#[trigger] post[k]).token@ == t
                                    && !post[k].revoked;
                            assert(pre[w].token@ == t && !pre[w].revoked);
                        }
                        if has_active_token(pre, t) {
                            let w = choose|k: int|
                                0 <= k < pre.len() && (#[trigger] pre[k]).token@ == t
                                    && !pre[k].revoked;
                            assert(post[w].token@ == t && !post[w].revoked);
                        }
                    }
                }
            },
            None => {},
        }
    }

    /// Revoke a token by id, only if it belongs to `owner_id`; report
    /// whether a row changed. A mismatched owner leaves the store exactly
    /// as it was, so nothing about another user's token can be learned.
    /// Once true is returned, the revoked token's string has no active
    /// record, and no operation of the store ever reactivates a token.
    pub fn revoke_token(&mut self, token_id: i64, owner_id: i64) -> (r: bool)
        requires
            old(self).wf(),
        ensures
            final(self).wf(),
            r == (exists|i: int|
                0 <= i < old(self).tokens@.len() && (#[trigger] old(self).tokens@[i]).id
                    == token_id && old(self).tokens@[i].user_id == owner_id),
            !r ==> *final(self) == *old(self),
            final(self).users@ == old(self).users@,
            final(self).next_user_id == old(self).next_user_id,
            final(self).next_token_id == old(self).next_token_id,
            final(self).tokens@.len() == old(self).tokens@.len(),
            forall|i: int|
                0 <= i < old(self).tokens@.len() && !((#[trigger] old(self).tokens@[i]).id
                    == token_id && old(self).tokens@[i].user_id == owner_id)
                    ==> final(self).tokens@[i] == old(self).tokens@[i],
            forall|i: int|
                0 <= i < old(self).tokens@.len() && (#[trigger] old(self).tokens@[i]).id
                    == token_id && old(self).tokens@[i].user_id == owner_id ==> {
                    let pre = old(self).tokens@[i];
                    let post = final(self).tokens@[i];
                    &&& post.id == pre.id
                    &&& post.user_id == pre.user_id
                    &&& post.token == pre.token
                    &&& post.label == pre.label
                    &&& post.created_at == pre.created_at
                    &&& post.last_used_at == pre.last_used_at
                    &&& post.revoked == true
                    &&& !has_active_token(final(self).tokens@, pre.token@)
                },
            forall|t: Seq<char>|
                #[trigger] has_active_token(final(self).tokens@, t) ==> has_active_token(
                    old(self).tokens@,
                    t,
                ),
    {
        let n = self.tokens.len();
        let mut i: usize = 0;
        while i < n
            invariant
                n == self.tokens@.len(),
                i <= n,
                *self == *old(self),
                old(self).wf(),
                forall|j: int|
                    0 <= j < i ==> !((#[trigger] self.tokens@[j]).id == token_id
                        && self.tokens@[j].user_id == owner_id),
            decreases n - i,
        {
            if self.tokens[i].id == token_id && self.tokens[i].user_id == owner_id {
                self.tokens[i].revoked = true;
                proof {
                    let pre = old(self).tokens@;
                    let post = self.tokens@;
                    assert forall|j: int|
                        0 <= j < pre.len() && !((#[trigger] pre[j]).id == token_id
                            && pre[j].user_id == owner_id) implies post[j] == pre[j] by {
                        assert(j != i);
                    }
                    assert forall|j: int|
                        0 <= j < pre.len() && (#[trigger] pre[j]).id == token_id
                            && pre[j].user_id == owner_id implies !has_active_token(
                        post,
                        pre[j].token@,
                    ) by {
                        assert(j == i);
                        if has_active_token(post, pre[j].token@) {
                            let w = choose|k: int|
                                0 <= k < post.len() && (#[trigger] post[k]).token@
                                    == pre[j].token@ && !post[k].revoked;
                            assert(w != i as int);
                            assert(post[w] == pre[w]);
                            assert(pre[w].token@ != pre[i as int].token@);
                        }
                    }
                    assert forall|t: Seq<char>|
                        #[trigger] has_active_token(post, t) implies has_active_token(
                        pre,
                        t,
                    ) by {
                        let w = choose|k: int|
                            0 <= k < post.len() && (#[trigger] post[k]).token@ == t
                                && !post[k].revoked;
                        assert(pre[w].token@ == t && !pre[w].revoked);
                    }
                }
                return true;
            }
            i += 1;
        }
        false
    }

    /// Set a user's privacy flag; report whether a row changed.
    pub fn set_privacy(&mut self, user_id: i64, is_private: bool) -> (r: bool)
        requires
            old(self).wf(),
        ensures
            final(self).wf(),
            r == has_user_id(old(self).users@, user_id),
            !r ==> *final(self) == *old(self),
            final(self).tokens@ == old(self).tokens@,
            final(self).next_user_id == old(self).next_user_id,
            final(self).next_token_id == old(self).next_token_id,
            final(self).users@.len() == old(self).users@.len(),
            forall|i: int|
                0 <= i < old(self).users@.len() && (#[trigger] old(self).users@[i]).id != user_id
                    ==> final(self).users@[i] == old(self).users@[i],
            forall|i: int|
                0 <= i < old(self).users@.len() && (#[trigger] old(self).users@[i]).id == user_id
                    ==> {
                    let pre = old(self).users@[i];
                    let post = final(self).users@[i];
                    &&& post.id == pre.id
                    &&& post.username == pre.username
                    &&& post.password_hash == pre.password_hash
                    &&& post.is_admin == pre.is_admin
                    &&& post.is_private == is_private
                    &&& post.created_at == pre.created_at
                },
    {
        match self.find_user_index_by_id(user_id) {
            Some(i) => {
                self.users[i].is_private = is_private;
                proof {
                    let pre = old(self).users@;
                    let post = self.users@;
                    assert forall|j: int|
                        0 <= j < pre.len() && (#[trigger] pre[j]).id != user_id implies post[j]
                        == pre[j] by {
                        assert(j != i);
                    }
                    assert forall|j: int|
                        0 <= j < self.tokens@.len() implies has_user_id(
                        post,
                        (#[trigger] self.tokens@[j]).user_id,
                    ) by {
                        let w = choose|k: int|
                            0 <= k < pre.len() && (#[trigger] pre[k]).id
                                == self.tokens@[j].user_id;
                        assert(post[w].id == pre[w].id);
                    }
                }
                true
            },
            None => false,
        }
    }

    /// Set a user's admin flag; report whether a row changed. The guard
    /// that keeps an admin from changing their own flag sits above the
    /// store, in the authorization layer.
    pub fn set_admin(&mut self, user_id: i64, is_admin: bool) -> (r: bool)
        requires
            old(self).wf(),
        ensures
            final(self).wf(),
            r == has_user_id(old(self).users@, user_id),
            !r ==> *final(self) == *old(self),
            final(self).tokens@ == old(self).tokens@,
            final(self).next_user_id == old(self).next_user_id,
            final(self).next_token_id == old(self).next_token_id,
            final(self).users@.len() == old(self).users@.len(),
            forall|i: int|
                0 <= i < old(self).users@.len() && (#[trigger] old(self).users@[i]).id != user_id
                    ==> final(self).users@[i] == old(self).users@[i],
            forall|i: int|
                0 <= i < old(self).users@.len() && (#[trigger] old(self).users@[i]).id == user_id
                    ==> {
                    let pre = old(self).users@[i];
                    let post = final(self).users@[i];
                    &&& post.id == pre.id
                    &&& post.username == pre.username
                    &&& post.password_hash == pre.password_hash
                    &&& post.is_admin == is_admin
                    &&& post.is_private == pre.is_private
                    &&& post.created_at == pre.created_at
                },
    {
        match self.find_user_index_by_id(user_id) {
            Some(i) => {
                self.users[i].is_admin = is_admin;
                proof {
                    let pre = old(self).users@;
                    let post = self.users@;
                    assert forall|j: int|
                        0 <= j < pre.len() && (#[trigger] pre[j]).id != user_id implies post[j]
                        == pre[j] by {
                        assert(j != i);
                    }
                    assert forall|j: int|
                        0 <= j < self.tokens@.len() implies has_user_id(
                        post,
                        (#[trigger] self.tokens@[j]).user_id,
                    ) by {
                        let w = choose|k: int|
                            0 <= k < pre.len() && (#[trigger] pre[k]).id
                                == self.tokens@[j].user_id;
                        assert(post[w].id == pre[w].id);
                    }
                }
                true
            },
            None => false,
        }
    }

    /// Delete a user and, with them, every token they own; report whether
    /// the user existed. Tokens are removed before the user row would be,
    /// so no token is ever left pointing at a missing user, and any
    /// subsequent lookup of a removed token's string finds nothing.
    pub fn delete_user(&mut self, user_id: i64) -> (r: bool)
        requires
            old(self).wf(),
        ensures
            final(self).wf(),
            r == has_user_id(old(self).users@, user_id),
            !r ==> *final(self) == *old(self),
            final(self).users@ == users_without(old(self).users@, user_id),
            final(self).tokens@ == tokens_without(old(self).tokens@, user_id),
            final(self).next_user_id == old(self).next_user_id,
            final(self).next_token_id == old(self).next_token_id,
            forall|i: int|
                0 <= i < final(self).tokens@.len() ==> (#[trigger] final(self).tokens@[i]).user_id
                    != user_id,
            forall|i: int|
                0 <= i < old(self).tokens@.len() && (#[trigger] old(self).tokens@[i]).user_id
                    == user_id ==> !has_token_string(
                    final(self).tokens@,
                    old(self).tokens@[i].token@,
                ),
            forall|i: int|
                0 <= i < old(self).tokens@.len() && (#[trigger] old(self).tokens@[i]).user_id
                    != user_id ==> final(self).tokens@.contains(old(self).tokens@[i]),
            forall|t: Seq<char>|
                #[trigger] has_active_token(final(self).tokens@, t) ==> has_active_token(
                    old(self).tokens@,
                    t,
                ),
    {
        match self.find_user_index_by_id(user_id) {
            None => {
                proof {
                    lemma_all_users_kept(self.users@, user_id);
                    assert forall|i: int|
                        0 <= i < self.tokens@.len() implies (#[trigger] self.tokens@[i]).user_id
                        != user_id by {
                        if self.tokens@[i].user_id == user_id {
                            assert(has_user_id(self.users@, user_id));
                        }
                    }
                    lemma_all_tokens_kept(self.tokens@, user_id);
                }
                return false;
            },
            Some(_) => {},
        }
        let tn = self.tokens.len();
        let mut kept_tokens: Vec<ApiToken> = Vec::new();
        let mut i: usize = 0;
        while i < tn
            invariant
                *self == *old(self),
                old(self).wf(),
                tn == self.tokens@.len(),
                i <= tn,
                kept_tokens@ == tokens_without(self.tokens@.take(i as int), user_id),
            decreases tn - i,
        {
            if self.tokens[i].user_id != user_id {
                let t = self.tokens[i].clone();
                kept_tokens.push(t);
            }
            proof {
                reveal(Seq::filter);
                assert(self.tokens@.take(i as int + 1).drop_last() =~= self.tokens@.take(
                    i as int,
                ));
                assert(self.tokens@.take(i as int + 1).last() == self.tokens@[i as int]);
            }
            i += 1;
        }
        let un = self.users.len();
        let mut kept_users: Vec<User> = Vec::new();
        let mut j: usize = 0;
        while j < un
            invariant
                *self == *old(self),
                old(self).wf(),
                un == self.users@.len(),
                j <= un,
                kept_users@ == users_without(self.users@.take(j as int), user_id),
            decreases un - j,
        {
            if self.users[j].id != user_id {
                let u = self.users[j].clone();
                kept_users.push(u);
            }
            proof {
                reveal(Seq::filter);
                assert(self.users@.take(j as int + 1).drop_last() =~= self.users@.take(j as int));
                assert(self.users@.take(j as int + 1).last() == self.users@[j as int]);
            }
            j += 1;
        }
        proof {
            assert(self.tokens@.take(tn as int) =~= self.tokens@);
            assert(self.users@.take(un as int) =~= self.users@);
        }
        self.users = kept_users;
        self.tokens = kept_tokens;
        proof {
            let pre = *old(self);
            let post_users = self.users@;
            let post_tokens = self.tokens@;
            lemma_users_without_wf(pre.users@, user_id, pre.next_user_id);
            lemma_tokens_without_wf(pre.tokens@, user_id, pre.next_token_id);
            assert forall|i: int|
                0 <= i < post_tokens.len() implies has_user_id(
                post_users,
                (#[trigger] post_tokens[i]).user_id,
            ) by {
                let k = choose|k: int|
                    0 <= k < pre.tokens@.len() && #[trigger] pre.tokens@[k] == post_tokens[i];
                assert(has_user_id(pre.users@, post_tokens[i].user_id));
                lemma_kept_user_id(pre.users@, user_id, post_tokens[i].user_id);
            }
            assert forall|i: int|
                0 <= i < pre.tokens@.len() && (#[trigger] pre.tokens@[i]).user_id == user_id
                    implies !has_token_string(post_tokens, pre.tokens@[i].token@) by {
                if has_token_string(post_tokens, pre.tokens@[i].token@) {
                    let w = choose|k: int|
                        0 <= k < post_tokens.len() && (#[trigger] post_tokens[k]).token@
                            == pre.tokens@[i].token@;
                    let m = choose|k: int|
                        0 <= k < pre.tokens@.len() && #[trigger] pre.tokens@[k] == post_tokens[w];
                    if m < i {
                        assert(pre.tokens@[m].token@ != pre.tokens@[i].token@);
                    } else if i < m {
                        assert(pre.tokens@[i].token@ != pre.tokens@[m].token@);
                    }
                }
            }
            assert forall|i: int|
                0 <= i < pre.tokens@.len() && (#[trigger] pre.tokens@[i]).user_id != user_id
                    implies post_tokens.contains(pre.tokens@[i]) by {
                lemma_kept_token(pre.tokens@, user_id, i);
            }
            assert forall|t: Seq<char>| #[trigger]
                has_active_token(post_tokens, t) implies has_active_token(pre.tokens@, t) by {
                let w = choose|k: int|
                    0 <= k < post_tokens.len() && (#[trigger] post_tokens[k]).token@ == t
                        && !post_tokens[k].revoked;
                let m = choose|k: int|
                    0 <= k < pre.tokens@.len() && #[trigger] pre.tokens@[k] == post_tokens[w];
                assert(pre.tokens@[m].token@ == t && !pre.tokens@[m].revoked);
            }
        }
        true
    }
}

/// The users that survive deleting user `uid`.
pub open spec fn users_without(users: Seq<User>, uid: i64) -> Seq<User> {
    users.filter(|u: User| u.id != uid)
}

/// The tokens that survive deleting user `uid`.
pub open spec fn tokens_without(tokens: Seq<ApiToken>, uid: i64) -> Seq<ApiToken> {
    tokens.filter(|t: ApiToken| t.user_id != uid)
}

proof fn lemma_users_without_wf(users: Seq<User>, uid: i64, bound: i64)
    requires
        forall|i: int| 0 <= i < users.len() ==> 0 < (#[trigger] users[i]).id < bound,
        forall|i: int, j: int|
            #![trigger users[i].id, users[j].id]
            0 <= i < j < users.len() ==> users[i].id != users[j].id,
        forall|i: int, j: int|
            #![trigger users[i].username, users[j].username]
            0 <= i < j < users.len() ==> users[i].username@ != users[j].username@,
    ensures
        ({
            let f = users_without(users, uid);
            &&& forall|i: int| 0 <= i < f.len() ==> 0 < (#[trigger] f[i]).id < bound
            &&& forall|i: int| 0 <= i < f.len() ==> (#[trigger] f[i]).id != uid
            &&& forall|i: int| 0 <= i < f.len() ==> users.contains(#[trigger] f[i])
            &&& forall|i: int, j: int|
                #![trigger f[i].id, f[j].id]
                0 <= i < j < f.len() ==> f[i].id != f[j].id
            &&& forall|i: int, j: int|
                #![trigger f[i].username, f[j].username]
                0 <= i < j < f.len() ==> f[i].username@ != f[j].username@
        }),
    decreases users.len(),
{
    reveal(Seq::filter);
    let f = users_without(users, uid);
    if users.len() == 0 {
    } else {
        let d = users.drop_last();
        let l = users.last();
        lemma_users_without_wf(d, uid, bound);
        let fd = users_without(d, uid);
        assert forall|i: int| 0 <= i < f.len() implies users.contains(#[trigger] f[i]) by {
            if i < fd.len() {
                let k = choose|k: int| 0 <= k < d.len() && #[trigger] d[k] == fd[i];
                assert(users[k] == f[i]);
            } else {
                assert(users[users.len() - 1] == f[i]);
            }
        }
        assert forall|i: int, j: int|
            #![trigger f[i].id, f[j].id]
            0 <= i < j < f.len() implies f[i].id != f[j].id by {
            if j < fd.len() {
            } else {
                assert(f[j] == l);
                assert(d.contains(fd[i]));
                let k = choose|k: int| 0 <= k < d.len() && #[trigger] d[k] == fd[i];
                assert(users[k].id != users[users.len() - 1].id);
            }
        }
        assert forall|i: int, j: int|
            #![trigger f[i].username, f[j].username]
            0 <= i < j < f.len() implies f[i].username@ != f[j].username@ by {
            if j < fd.len() {
            } else {
                assert(f[j] == l);
                assert(d.contains(fd[i]));
                let k = choose|k: int| 0 <= k < d.len() && #[trigger] d[k] == fd[i];
                assert(users[k].username@ != users[users.len() - 1].username@);
            }
        }
    }
}

proof fn lemma_tokens_without_wf(tokens: Seq<ApiToken>, uid: i64, bound: i64)
    requires
        forall|i: int| 0 <= i < tokens.len() ==> 0 < (#[trigger] tokens[i]).id < bound,
        forall|i: int, j: int|
            #![trigger tokens[i].id, tokens[j].id]
            0 <= i < j < tokens.len() ==> tokens[i].id != tokens[j].id,
        forall|i: int, j: int|
            #![trigger tokens[i].token, tokens[j].token]
            0 <= i < j < tokens.len() ==> tokens[i].token@ != tokens[j].token@,
    ensures
        ({
            let f = tokens_without(tokens, uid);
            &&& forall|i: int| 0 <= i < f.len() ==> 0 < (#[trigger] f[i]).id < bound
            &&& forall|i: int| 0 <= i < f.len() ==> (#[trigger] f[i]).user_id != uid
            &&& forall|i: int| 0 <= i < f.len() ==> tokens.contains(#[trigger] f[i])
            &&& forall|i: int, j: int|
                #![trigger f[i].id, f[j].id]
                0 <= i < j < f.len() ==> f[i].id != f[j].id
            &&& forall|i: int, j: int|
                #![trigger f[i].token, f[j].token]
                0 <= i < j < f.len() ==> f[i].token@ != f[j].token@
        }),
    decreases tokens.len(),
{
    reveal(Seq::filter);
    let f = tokens_without(tokens, uid);
    if tokens.len() == 0 {
    } else {
        let d = tokens.drop_last();
        let l = tokens.last();
        lemma_tokens_without_wf(d, uid, bound);
        let fd = tokens_without(d, uid);
        assert forall|i: int| 0 <= i < f.len() implies tokens.contains(#[trigger] f[i]) by {
            if i < fd.len() {
                let k = choose|k: int| 0 <= k < d.len() && #[trigger] d[k] == fd[i];
                assert(tokens[k] == f[i]);
            } else {
                assert(tokens[tokens.len() - 1] == f[i]);
            }
        }
        assert forall|i: int, j: int|
            #![trigger f[i].id, f[j].id]
            0 <= i < j < f.len() implies f[i].id != f[j].id by {
            if j < fd.len() {
            } else {
                assert(f[j] == l);
                assert(d.contains(fd[i]));
                let k = choose|k: int| 0 <= k < d.len() && #[trigger] d[k] == fd[i];
                assert(tokens[k].id != tokens[tokens.len() - 1].id);
            }
        }
        assert forall|i: int, j: int|
            #![trigger f[i].token, f[j].token]
            0 <= i < j < f.len() implies f[i].token@ != f[j].token@ by {
            if j < fd.len() {
            } else {
                assert(f[j] == l);
                assert(d.contains(fd[i]));
                let k = choose|k: int| 0 <= k < d.len() && #[trigger] d[k] == fd[i];
                assert(tokens[k].token@ != tokens[tokens.len() - 1].token@);
            }
        }
    }
}

proof fn lemma_kept_user_id(users: Seq<User>, uid: i64, x: i64)
    requires
        has_user_id(users, x),
        x != uid,
    ensures
        has_user_id(users_without(users, uid), x),
    decreases users.len(),
{
    reveal(Seq::filter);
    let f = users_without(users, uid);
    let k = choose|k: int| 0 <= k < users.len() && (#[trigger] users[k]).id == x;
    let d = users.drop_last();
    let fd = users_without(d, uid);
    if k == users.len() - 1 {
        assert(f[f.len() - 1] == users[k]);
    } else {
        assert(d[k] == users[k]);
        assert(has_user_id(d, x));
        lemma_kept_user_id(d, uid, x);
        let m = choose|m: int| 0 <= m < fd.len() && (#[trigger] fd[m]).id == x;
        assert(f[m] == fd[m]);
    }
}

proof fn lemma_kept_token(tokens: Seq<ApiToken>, uid: i64, i: int)
    requires
        0 <= i < tokens.len(),
        tokens[i].user_id != uid,
    ensures
        tokens_without(tokens, uid).contains(tokens[i]),
    decreases tokens.len(),
{
    reveal(Seq::filter);
    let f = tokens_without(tokens, uid);
    let d = tokens.drop_last();
    let fd = tokens_without(d, uid);
    if i == tokens.len() - 1 {
        assert(f[f.len() - 1] == tokens[i]);
    } else {
        assert(d[i] == tokens[i]);
        lemma_kept_token(d, uid, i);
        let m = choose|m: int| 0 <= m < fd.len() && fd[m] == tokens[i];
        assert(f[m] == fd[m]);
    }
}

proof fn lemma_all_users_kept(users: Seq<User>, uid: i64)
    requires
        forall|i: int| 0 <= i < users.len() ==> (#[trigger] users[i]).id != uid,
    ensures
        users_without(users, uid) == users,
    decreases users.len(),
{
    reveal(Seq::filter);
    if users.len() == 0 {
        assert(users_without(users, uid) =~= users);
    } else {
        let d = users.drop_last();
        lemma_all_users_kept(d, uid);
        assert(users_without(users, uid) =~= users);
    }
}

proof fn lemma_all_tokens_kept(tokens: Seq<ApiToken>, uid: i64)
    requires
        forall|i: int| 0 <= i < tokens.len() ==> (#[trigger] tokens[i]).user_id != uid,
    ensures
        tokens_without(tokens, uid) == tokens,
    decreases tokens.len(),
{
    reveal(Seq::filter);
    if tokens.len() == 0 {
        assert(tokens_without(tokens, uid) =~= tokens);
    } else {
        let d = tokens.drop_last();
        lemma_all_tokens_kept(d, uid);
        assert(tokens_without(tokens, uid) =~= tokens);
    }
}

/// Law: in a well-formed store, a revoked record's string has no active
/// record at all — a revocation is visible to every subsequent lookup,
/// because a token string is never carried by a second record.
pub proof fn lemma_revoked_string_inactive(s: IdentityStore, i: int)
    requires
        s.wf(),
        0 <= i < s.tokens@.len(),
        s.tokens@[i].revoked,
    ensures
        !has_active_token(s.tokens@, s.tokens@[i].token@),
{
    if has_active_token(s.tokens@, s.tokens@[i].token@) {
        let w = choose|k: int|
            0 <= k < s.tokens@.len() && (#[trigger] s.tokens@[k]).token@ == s.tokens@[i].token@
                && !s.tokens@[k].revoked;
        if w < i {
            assert(s.tokens@[w].token@ != s.tokens@[i].token@);
        } else {
            assert(s.tokens@[i].token@ != s.tokens@[w].token@);
        }
    }
}

/// Law: a token string that no record carries cannot be active; so once a
/// user's deletion has removed a token's record, no lookup of that string
/// finds an owner.
pub proof fn lemma_absent_token_inactive(tokens: Seq<ApiToken>, t: Seq<char>)
    requires
        !has_token_string(tokens, t),
    ensures
        !has_active_token(tokens, t),
{
}

/// Law: two distinct token records of a well-formed store never carry the
/// same token string — an issued token is never reassigned or reissued.
pub proof fn lemma_issued_tokens_distinct(s: IdentityStore, i: int, j: int)
    requires
        s.wf(),
        0 <= i < s.tokens@.len(),
        0 <= j < s.tokens@.len(),
        i != j,
    ensures
        s.tokens@[i].token@ != s.tokens@[j].token@,
{
    if i < j {
        assert(s.tokens@[i].token@ != s.tokens@[j].token@);
    } else {
        assert(s.tokens@[j].token@ != s.tokens@[i].token@);
    }
}

} // verus!
