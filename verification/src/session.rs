//! Session service: signup, login, token issuance and resolution,
//! orchestrating the credential codec, the token generator and the
//! identity store. Validation happens before any mutation; authentication
//! failures are deliberately undifferentiated.

use vstd::prelude::*;
use crate::clock::current_timestamp;
use crate::codec::{hash_password, verify_outcome, verify_password};
use crate::errors::{AuthError, ValidationIssue};
use crate::model::{ApiToken, User};
use crate::store::{
    active_token_owner, has_active_token, has_user_id, has_user_named, IdentityStore,
};
use crate::text::{is_digit, is_lower, is_upper};
use crate::token::generate_token;
use vstd::string::StringSliceAdditionalSpecFns;
use vstd::utf8::encode_utf8;

verus! {

/// What a successful signup or login hands back: the user record and the
/// raw token value, which is returned only here, at creation.
#[derive(Debug)]
pub struct AuthPayload {
    pub token: String,
    pub user: User,
}

/// A character allowed in a username: ASCII letter, digit or underscore.
pub open spec fn is_username_char(c: char) -> bool {
    is_lower(c) || is_upper(c) || is_digit(c) || c == '_'
}

/// The first policy defect of a username, if any: length 3 to 20, then
/// charset.
pub open spec fn username_issue(s: Seq<char>) -> Option<ValidationIssue> {
    if s.len() < 3 || s.len() > 20 {
        Some(ValidationIssue::UsernameLength)
    } else if exists|i: int| 0 <= i < s.len() && !is_username_char(#[trigger] s[i]) {
        Some(ValidationIssue::UsernameCharset)
    } else {
        None
    }
}

/// The first policy defect of a password, if any: length 8 to 72 bytes —
/// 72 bytes is the credential codec's hard limit, and anything longer must
/// be rejected here rather than silently truncated there — then at least
/// one lowercase letter, one uppercase letter and one digit.
pub open spec fn password_issue(s: Seq<char>) -> Option<ValidationIssue> {
    if encode_utf8(s).len() < 8 {
        Some(ValidationIssue::PasswordTooShort)
    } else if encode_utf8(s).len() > 72 {
        Some(ValidationIssue::PasswordTooLong)
    } else if !(exists|i: int| 0 <= i < s.len() && is_lower(#[trigger] s[i])) || !(exists|i: int|
        0 <= i < s.len() && is_upper(#[trigger] s[i])) || !(exists|i: int|
        0 <= i < s.len() && is_digit(#[trigger] s[i])) {
        Some(ValidationIssue::PasswordComplexity)
    } else {
        None
    }
}

/// Check a username against the policy.
pub fn validate_username(username: &str) -> (r: Option<ValidationIssue>)
    ensures
        r == username_issue(username@),
{
    let n = username.unicode_len();
    if n < 3 || n > 20 {
        return Some(ValidationIssue::UsernameLength);
    }
    let mut i: usize = 0;
    while i < n
        invariant
            n == username@.len(),
            3 <= n <= 20,
            i <= n,
            forall|k: int| 0 <= k < i ==> is_username_char(#[trigger] username@[k]),
        decreases n - i,
    {
        let c = username.get_char(i);
        let code = c as u32;
        let ok = (code >= 'a' as u32 && code <= 'z' as u32) || (code >= 'A' as u32 && code
            <= 'Z' as u32) || (code >= '0' as u32 && code <= '9' as u32) || c == '_';
        if !ok {
            return Some(ValidationIssue::UsernameCharset);
        }
        i += 1;
    }
    None
}

/// Check a password against the policy.
pub fn validate_password(password: &str) -> (r: Option<ValidationIssue>)
    ensures
        r == password_issue(password@),
{
    let nbytes = password.as_bytes().len();
    proof {
        assert(password.spec_bytes() == encode_utf8(password@));
    }
    if nbytes < 8 {
        return Some(ValidationIssue::PasswordTooShort);
    }
    if nbytes > 72 {
        return Some(ValidationIssue::PasswordTooLong);
    }
    let n = password.unicode_len();
    let mut has_low = false;
    let mut has_up = false;
    let mut has_dig = false;
    let mut i: usize = 0;
    while i < n
        invariant
            n == password@.len(),
            i <= n,
            has_low == exists|k: int| 0 <= k < i && is_lower(#[trigger] password@[k]),
            has_up == exists|k: int| 0 <= k < i && is_upper(#[trigger] password@[k]),
            has_dig == exists|k: int| 0 <= k < i && is_digit(#[trigger] password@[k]),
        decreases n - i,
    {
        let c = password.get_char(i);
        let code = c as u32;
        if code >= 'a' as u32 && code <= 'z' as u32 {
            has_low = true;
        }
        if code >= 'A' as u32 && code <= 'Z' as u32 {
            has_up = true;
        }
        if code >= '0' as u32 && code <= '9' as u32 {
            has_dig = true;
        }
        i += 1;
    }
    if has_low && has_up && has_dig {
        None
    } else {
        Some(ValidationIssue::PasswordComplexity)
    }
}

/// Sign a new user up: validate the username and password before touching
/// storage, hash the password, insert the user — the first user of an
/// empty system becomes admin, computed atomically inside the insert —
/// and issue a session token.
pub fn signup(store: &mut IdentityStore, username: &str, password: &str) -> (r: Result<
    AuthPayload,
    AuthError,
>)
    requires
        old(store).wf(),
    ensures
        final(store).wf(),
        username_issue(username@) matches Some(k)
            ==> r == Err::<AuthPayload, AuthError>(AuthError::Validation(k)) && *final(store)
            == *old(store),
        username_issue(username@) is None ==> (password_issue(password@) matches Some(k)
            ==> r == Err::<AuthPayload, AuthError>(AuthError::Validation(k)) && *final(store)
            == *old(store)),
        username_issue(username@) is None && password_issue(password@) is None && has_user_named(
            old(store).users@,
            username@,
        ) ==> r == Err::<AuthPayload, AuthError>(AuthError::UsernameTaken) && *final(store) == *old(store),
        r matches Err(e) ==> (e matches AuthError::Validation(_) || e == AuthError::UsernameTaken
            || e == AuthError::Hashing || e == AuthError::Storage),
        r matches Err(AuthError::Validation(k)) ==> (username_issue(username@) == Some(k) || (
        username_issue(username@) is None && password_issue(password@) == Some(k))),
        r == Err::<AuthPayload, AuthError>(AuthError::UsernameTaken) ==> username_issue(username@)
            is None && password_issue(password@) is None && has_user_named(
            old(store).users@,
            username@,
        ),
        r matches Err(AuthError::Hashing) ==> *final(store) == *old(store),
        r is Err ==> final(store).tokens@ == old(store).tokens@,
        r is Err ==> (final(store).users@ == old(store).users@ || (final(store).users@.len()
            == old(store).users@.len() + 1 && final(store).users@
            == old(store).users@.push(final(store).users@.last()))),
        r matches Ok(p) ==> {
            &&& username_issue(username@) is None
            &&& password_issue(password@) is None
            &&& !has_user_named(old(store).users@, username@)
            &&& p.user.username@ == username@
            &&& p.user.is_admin == (old(store).users@.len() == 0)
            &&& p.user.is_private == false
            &&& verify_outcome(password@, p.user.password_hash@) == Some(true)
            &&& final(store).users@ == old(store).users@.push(p.user)
            &&& final(store).tokens@.len() == old(store).tokens@.len() + 1
            &&& final(store).tokens@ == old(store).tokens@.push(final(store).tokens@.last())
            &&& final(store).tokens@.last().user_id == p.user.id
            &&& final(store).tokens@.last().token@ == p.token@
            &&& final(store).tokens@.last().revoked == false
            &&& (final(store).tokens@.last().label matches Some(l) && l@ == "session"@)
            &&& active_token_owner(final(store).tokens@, p.token@, p.user.id)
        },
        forall|t: Seq<char>|
            #[trigger] has_active_token(old(store).tokens@, t) ==> has_active_token(
                final(store).tokens@,
                t,
            ),
{
    match validate_username(username) {
        Some(k) => {
            return Err(AuthError::Validation(k));
        },
        None => {},
    }
    match validate_password(password) {
        Some(k) => {
            return Err(AuthError::Validation(k));
        },
        None => {},
    }
    match store.find_user_by_name(username) {
        Some(u) => {
            proof {
                let k = choose|k: int|
                    0 <= k < store.users@.len() && #[trigger] store.users@[k] == u;
                assert(has_user_named(store.users@, username@));
            }
            return Err(AuthError::UsernameTaken);
        },
        None => {},
    }
    let hashed = match hash_password(password) {
        Ok(h) => h,
        Err(_) => {
            return Err(AuthError::Hashing);
        },
    };
    let now = current_timestamp();
    let user = match store.insert_user(username, hashed.as_str(), now) {
        Ok(u) => u,
        Err(_) => {
            return Err(AuthError::Storage);
        },
    };
    let token = generate_token();
    match store.insert_token(user.id, token.as_str(), Some("session"), now) {
        Ok(t) => {
            proof {
                let toks = store.tokens@;
                assert(toks.last() == t);
                assert(toks[toks.len() - 1].token@ == token@ && !toks[toks.len() - 1].revoked
                    && toks[toks.len() - 1].user_id == user.id);
                assert(old(store).users@.push(user).last() == user);
            }
            Ok(AuthPayload { token, user })
        },
        Err(_) => {
            proof {
                let pre = old(store).users@;
                let post = store.users@;
                assert(post == pre.push(user));
                assert(post.last() == user);
            }
            Err(AuthError::Storage)
        },
    }
}

/// Log a user in: an unknown username and a wrong password yield the very
/// same `InvalidCredentials` value, so usernames cannot be enumerated. On
/// success a fresh session token is issued; prior tokens stay valid.
pub fn login(store: &mut IdentityStore, username: &str, password: &str) -> (r: Result<
    AuthPayload,
    AuthError,
>)
    requires
        old(store).wf(),
    ensures
        final(store).wf(),
        !has_user_named(old(store).users@, username@) ==> r == Err::<AuthPayload, AuthError>(
            AuthError::InvalidCredentials,
        ) && *final(store) == *old(store),
        forall|i: int|
            0 <= i < old(store).users@.len() && (#[trigger] old(store).users@[i]).username@
                == username@ ==> match verify_outcome(
                password@,
                old(store).users@[i].password_hash@,
            ) {
                Some(true) => r is Ok || r == Err::<AuthPayload, AuthError>(AuthError::Storage),
                Some(false) => r == Err::<AuthPayload, AuthError>(AuthError::InvalidCredentials),
                None => r == Err::<AuthPayload, AuthError>(AuthError::Hashing),
            },
        r is Err ==> *final(store) == *old(store),
        r matches Ok(p) ==> {
            &&& old(store).users@.contains(p.user)
            &&& p.user.username@ == username@
            &&& verify_outcome(password@, p.user.password_hash@) == Some(true)
            &&& final(store).users@ == old(store).users@
            &&& final(store).tokens@.len() == old(store).tokens@.len() + 1
            &&& final(store).tokens@ == old(store).tokens@.push(final(store).tokens@.last())
            &&& final(store).tokens@.last().user_id == p.user.id
            &&& final(store).tokens@.last().token@ == p.token@
            &&& final(store).tokens@.last().revoked == false
            &&& (final(store).tokens@.last().label matches Some(l) && l@ == "session"@)
            &&& active_token_owner(final(store).tokens@, p.token@, p.user.id)
        },
        forall|t: Seq<char>|
            #[trigger] has_active_token(old(store).tokens@, t) ==> has_active_token(
                final(store).tokens@,
                t,
            ),
{
    let user = match store.find_user_by_name(username) {
        Some(u) => u,
        None => {
            return Err(AuthError::InvalidCredentials);
        },
    };
    proof {
        let k = choose|k: int| 0 <= k < store.users@.len() && #[trigger] store.users@[k] == user;
        assert(has_user_named(store.users@, username@));
        assert forall|i: int|
            0 <= i < store.users@.len() && (#[trigger] store.users@[i]).username@
                == username@ implies store.users@[i] == user by {
            if i < k {
                assert(store.users@[i].username@ != store.users@[k].username@);
            } else if k < i {
                assert(store.users@[k].username@ != store.users@[i].username@);
            }
        }
    }
    let matches_hash = match verify_password(password, user.password_hash.as_str()) {
        Ok(b) => b,
        Err(_) => {
            return Err(AuthError::Hashing);
        },
    };
    if !matches_hash {
        return Err(AuthError::InvalidCredentials);
    }
    let token = generate_token();
    let now = current_timestamp();
    match store.insert_token(user.id, token.as_str(), Some("session"), now) {
        Ok(t) => {
            proof {
                let toks = store.tokens@;
                assert(toks.last() == t);
                assert(toks[toks.len() - 1].token@ == token@ && !toks[toks.len() - 1].revoked
                    && toks[toks.len() - 1].user_id == user.id);
            }
            Ok(AuthPayload { token, user })
        },
        Err(_) => Err(AuthError::Storage),
    }
}

/// Issue a fresh token for a user, with an optional label. The raw token
/// value appears in the returned record and nowhere else, exactly once.
pub fn issue_token(store: &mut IdentityStore, user_id: i64, label: Option<&str>) -> (r: Result<
    ApiToken,
    AuthError,
>)
    requires
        old(store).wf(),
    ensures
        final(store).wf(),
        r is Err ==> r == Err::<ApiToken, AuthError>(AuthError::Storage) && *final(store)
            == *old(store),
        !has_user_id(old(store).users@, user_id) ==> r is Err,
        r matches Ok(t) ==> {
            &&& has_user_id(old(store).users@, user_id)
            &&& t.user_id == user_id
            &&& t.revoked == false
            &&& t.last_used_at is None
            &&& match (label, t.label) {
                (Some(l), Some(tl)) => tl@ == l@,
                (None, None) => true,
                _ => false,
            }
            &&& final(store).users@ == old(store).users@
            &&& final(store).tokens@ == old(store).tokens@.push(t)
            &&& active_token_owner(final(store).tokens@, t.token@, user_id)
        },
        forall|t: Seq<char>|
            #[trigger] has_active_token(old(store).tokens@, t) ==> has_active_token(
                final(store).tokens@,
                t,
            ),
{
    let token = generate_token();
    let now = current_timestamp();
    match store.insert_token(user_id, token.as_str(), label, now) {
        Ok(t) => {
            proof {
                let toks = store.tokens@;
                assert(toks.last() == t);
                assert(toks[toks.len() - 1].token@ == t.token@ && !toks[toks.len() - 1].revoked
                    && toks[toks.len() - 1].user_id == user_id);
            }
            Ok(t)
        },
        Err(_) => Err(AuthError::Storage),
    }
}

/// Resolve a bearer token to its owning user: the active (non-revoked)
/// record is looked up, its last use recorded, and the exact owning user
/// returned. A token never issued, or issued and then revoked, yields
/// nothing — a normal outcome, not a fault.
pub fn resolve(store: &mut IdentityStore, token: &str) -> (r: Option<User>)
    requires
        old(store).wf(),
    ensures
        final(store).wf(),
        r is Some <==> has_active_token(old(store).tokens@, token@),
        r matches Some(u) ==> active_token_owner(old(store).tokens@, token@, u.id)
            && old(store).users@.contains(u),
        r is None ==> *final(store) == *old(store),
        final(store).users@ == old(store).users@,
        final(store).tokens@.len() == old(store).tokens@.len(),
        forall|t: Seq<char>|
            #[trigger] has_active_token(final(store).tokens@, t) == has_active_token(
                old(store).tokens@,
                t,
            ),
        forall|i: int|
            0 <= i < old(store).tokens@.len() && (#[trigger] old(store).tokens@[i]).token@
                != token@ ==> final(store).tokens@[i] == old(store).tokens@[i],
        forall|i: int|
            0 <= i < old(store).tokens@.len() && (#[trigger] old(store).tokens@[i]).token@
                == token@ ==> {
                let pre = old(store).tokens@[i];
                let post = final(store).tokens@[i];
                &&& post.id == pre.id
                &&& post.user_id == pre.user_id
                &&& post.token == pre.token
                &&& post.label == pre.label
                &&& post.created_at == pre.created_at
                &&& post.revoked == pre.revoked
                &&& (r is Some ==> post.last_used_at is Some)
            },
{
    let user_id = match store.find_active_token(token) {
        Some(uid) => uid,
        None => {
            return None;
        },
    };
    let now = current_timestamp();
    store.touch_token(token, now);
    match store.find_user_by_id(user_id) {
        Some(u) => Some(u),
        None => {
            proof {
                let k = choose|k: int|
                    0 <= k < old(store).tokens@.len() && (#[trigger] old(store).tokens@[k]).token@
                        == token@ && !old(store).tokens@[k].revoked
                        && old(store).tokens@[k].user_id == user_id;
                assert(has_user_id(store.users@, user_id));
                assert(false);
            }
            None
        },
    }
}

} // verus!
