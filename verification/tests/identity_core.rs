use scrob::errors::{AuthError, ValidationIssue};
use scrob::guard::{authorize, Decision, DenyReason, RequiredPrivilege};
use scrob::model::User;
use scrob::ops;
use scrob::session::{issue_token, login, resolve, signup};
use scrob::store::IdentityStore;
use scrob::token::generate_token;

fn user_with(id: i64, is_admin: bool) -> User {
    User {
        id,
        username: String::from("someone"),
        password_hash: String::new(),
        is_admin,
        is_private: false,
        created_at: 0,
    }
}

#[test]
fn generated_tokens_are_distinct_and_header_safe() {
    let t1 = generate_token();
    let t2 = generate_token();
    assert_ne!(t1, t2);
    assert_eq!(t1.len(), 64);
    assert_eq!(t2.len(), 64);
    assert!(t1.chars().all(|c| ('0'..='9').contains(&c) || ('a'..='f').contains(&c)));
}

#[test]
fn signup_rejects_short_username() {
    let mut store = IdentityStore::new();
    let r = signup(&mut store, "ab", "Abcdef12");
    match r {
        Err(e) => {
            assert_eq!(e, AuthError::Validation(ValidationIssue::UsernameLength));
            assert_eq!(e.status(), 400);
            assert_eq!(e.message(), "Username must be between 3 and 20 characters");
        }
        Ok(_) => panic!("short username accepted"),
    }
    assert_eq!(store.users.len(), 0);
}

#[test]
fn signup_rejects_bad_username_charset() {
    let mut store = IdentityStore::new();
    let r = signup(&mut store, "bad name!", "Abcdef12");
    assert!(matches!(
        r,
        Err(AuthError::Validation(ValidationIssue::UsernameCharset))
    ));
}

#[test]
fn signup_accepts_valid_user() {
    let mut store = IdentityStore::new();
    let r = signup(&mut store, "validUser_1", "Abcdef12");
    let payload = r.expect("valid signup must succeed");
    assert_eq!(payload.user.username, "validUser_1");
    assert!(payload.user.is_admin);
    assert_eq!(payload.token.len(), 64);
    assert_eq!(store.users.len(), 1);
    assert_eq!(store.tokens.len(), 1);
    assert_eq!(store.tokens[0].label.as_deref(), Some("session"));
}

#[test]
fn signup_rejects_password_without_uppercase() {
    let mut store = IdentityStore::new();
    let r = signup(&mut store, "validUser_1", "alllowercase1");
    assert!(matches!(
        r,
        Err(AuthError::Validation(ValidationIssue::PasswordComplexity))
    ));
}

#[test]
fn signup_rejects_password_without_digits() {
    let mut store = IdentityStore::new();
    let r = signup(&mut store, "validUser_1", "nodigitsHere");
    assert!(matches!(
        r,
        Err(AuthError::Validation(ValidationIssue::PasswordComplexity))
    ));
}

#[test]
fn signup_rejects_short_password() {
    let mut store = IdentityStore::new();
    let r = signup(&mut store, "validUser_1", "Short1A");
    match r {
        Err(e) => {
            assert_eq!(e, AuthError::Validation(ValidationIssue::PasswordTooShort));
            assert_eq!(e.message(), "Password must be at least 8 characters");
        }
        Ok(_) => panic!("7-character password accepted"),
    }
}

#[test]
fn signup_rejects_overlong_password() {
    let mut store = IdentityStore::new();
    let long: String = std::iter::repeat('a').take(70).collect::<String>() + "A1x";
    let r = signup(&mut store, "validUser_1", &long);
    assert!(matches!(
        r,
        Err(AuthError::Validation(ValidationIssue::PasswordTooLong))
    ));
}

#[test]
fn password_length_is_measured_in_bytes() {
    let mut store = IdentityStore::new();
    // 38 characters, but 73 bytes of UTF-8: over the codec's byte limit
    let wide: String = std::iter::repeat('\u{e9}').take(35).collect::<String>() + "A1a";
    let r = signup(&mut store, "validUser_1", &wide);
    assert!(matches!(
        r,
        Err(AuthError::Validation(ValidationIssue::PasswordTooLong))
    ));
}

#[test]
fn signup_rejects_taken_username() {
    let mut store = IdentityStore::new();
    signup(&mut store, "alice", "Abcdef12").unwrap();
    let r = signup(&mut store, "alice", "Ghijkl34");
    match r {
        Err(e) => {
            assert_eq!(e, AuthError::UsernameTaken);
            assert_eq!(e.status(), 409);
            assert_eq!(e.message(), "Username already exists");
        }
        Ok(_) => panic!("duplicate username accepted"),
    }
}

#[test]
fn first_user_is_admin_second_is_not() {
    let mut store = IdentityStore::new();
    let first = signup(&mut store, "first_user", "Abcdef12").unwrap();
    let second = signup(&mut store, "second_user", "Abcdef12").unwrap();
    assert!(first.user.is_admin);
    assert!(!second.user.is_admin);
}

#[test]
fn login_succeeds_with_correct_password() {
    let mut store = IdentityStore::new();
    let created = signup(&mut store, "alice", "Abcdef12").unwrap();
    let logged_in = login(&mut store, "alice", "Abcdef12").unwrap();
    assert_eq!(logged_in.user.id, created.user.id);
    assert_ne!(logged_in.token, created.token);
    assert_eq!(store.tokens.len(), 2);
}

#[test]
fn login_failures_are_indistinguishable() {
    let mut store = IdentityStore::new();
    signup(&mut store, "alice", "Abcdef12").unwrap();
    let wrong_password = login(&mut store, "alice", "wrongPass1").unwrap_err();
    let unknown_user = login(&mut store, "nosuchuser", "xX1xxxxx").unwrap_err();
    assert_eq!(wrong_password, unknown_user);
    assert_eq!(wrong_password, AuthError::InvalidCredentials);
    assert_eq!(wrong_password.message(), unknown_user.message());
    assert_eq!(wrong_password.message(), "Invalid username or password");
    assert_eq!(wrong_password.status(), 401);
    assert_eq!(unknown_user.status(), 401);
}

#[test]
fn resolve_returns_exact_owner_of_active_token() {
    let mut store = IdentityStore::new();
    let created = signup(&mut store, "alice", "Abcdef12").unwrap();
    let resolved = resolve(&mut store, &created.token).expect("active token must resolve");
    assert_eq!(resolved.id, created.user.id);
    assert_eq!(resolved.username, "alice");
}

#[test]
fn resolve_records_token_use() {
    let mut store = IdentityStore::new();
    let created = signup(&mut store, "alice", "Abcdef12").unwrap();
    assert_eq!(store.tokens[0].last_used_at, None);
    resolve(&mut store, &created.token).unwrap();
    assert!(store.tokens[0].last_used_at.is_some());
}

#[test]
fn resolve_of_unknown_token_is_none() {
    let mut store = IdentityStore::new();
    signup(&mut store, "alice", "Abcdef12").unwrap();
    assert!(resolve(&mut store, "neverissuedtoken").is_none());
    assert!(resolve(&mut store, "").is_none());
}

#[test]
fn revoked_token_never_resolves_again() {
    let mut store = IdentityStore::new();
    let created = signup(&mut store, "alice", "Abcdef12").unwrap();
    let token_id = store.tokens[0].id;
    assert!(store.revoke_token(token_id, created.user.id));
    assert!(resolve(&mut store, &created.token).is_none());
    // still none on a later lookup, and after unrelated activity
    signup(&mut store, "bob_user", "Abcdef12").unwrap();
    assert!(resolve(&mut store, &created.token).is_none());
}

#[test]
fn revoking_anothers_token_fails_and_leaves_it_active() {
    let mut store = IdentityStore::new();
    let alice = signup(&mut store, "alice", "Abcdef12").unwrap();
    let bob = signup(&mut store, "bob_user", "Abcdef12").unwrap();
    let alice_token_id = store.tokens[0].id;
    assert!(!store.revoke_token(alice_token_id, bob.user.id));
    assert!(resolve(&mut store, &alice.token).is_some());
}

#[test]
fn issue_token_carries_label_and_resolves() {
    let mut store = IdentityStore::new();
    let alice = signup(&mut store, "alice", "Abcdef12").unwrap();
    let record = issue_token(&mut store, alice.user.id, Some("cli")).unwrap();
    assert_eq!(record.user_id, alice.user.id);
    assert_eq!(record.label.as_deref(), Some("cli"));
    assert_eq!(record.last_used_at, None);
    assert!(!record.revoked);
    let resolved = resolve(&mut store, &record.token).unwrap();
    assert_eq!(resolved.id, alice.user.id);
}

#[test]
fn authorize_decisions_match_the_rules() {
    let non_admin = user_with(7, false);
    let admin5 = user_with(5, true);
    assert_eq!(
        authorize(&non_admin, RequiredPrivilege::AdminOnly),
        Decision::Deny(DenyReason::NotAdmin)
    );
    assert_eq!(
        authorize(&admin5, RequiredPrivilege::AdminNotSelf(5)),
        Decision::Deny(DenyReason::SelfAction)
    );
    assert_eq!(
        authorize(&admin5, RequiredPrivilege::AdminNotSelf(6)),
        Decision::Allow
    );
    assert_eq!(
        authorize(&non_admin, RequiredPrivilege::AnyAuthenticated),
        Decision::Allow
    );
    assert_eq!(
        authorize(&non_admin, RequiredPrivilege::ResourceOwner(7)),
        Decision::Allow
    );
    assert_eq!(
        authorize(&non_admin, RequiredPrivilege::ResourceOwner(8)),
        Decision::Deny(DenyReason::NotOwner)
    );
}

#[test]
fn deleting_a_user_invalidates_all_their_tokens() {
    let mut store = IdentityStore::new();
    let admin = signup(&mut store, "admin_user", "Abcdef12").unwrap();
    let bob = signup(&mut store, "bob_user", "Abcdef12").unwrap();
    let extra = issue_token(&mut store, bob.user.id, None).unwrap();
    ops::delete_user(&mut store, &admin.user, bob.user.id).unwrap();
    assert!(resolve(&mut store, &bob.token).is_none());
    assert!(resolve(&mut store, &extra.token).is_none());
    // the admin's own token is untouched
    assert!(resolve(&mut store, &admin.token).is_some());
    assert!(store.find_user_by_id(bob.user.id).is_none());
}

#[test]
fn admins_cannot_delete_themselves() {
    let mut store = IdentityStore::new();
    let admin = signup(&mut store, "admin_user", "Abcdef12").unwrap();
    let e = ops::delete_user(&mut store, &admin.user, admin.user.id).unwrap_err();
    assert_eq!(e, AuthError::SelfDeletionBlocked);
    assert_eq!(e.status(), 400);
    assert_eq!(e.message(), "Cannot delete yourself");
    assert!(store.find_user_by_id(admin.user.id).is_some());
}

#[test]
fn non_admins_cannot_delete_users() {
    let mut store = IdentityStore::new();
    let admin = signup(&mut store, "admin_user", "Abcdef12").unwrap();
    let bob = signup(&mut store, "bob_user", "Abcdef12").unwrap();
    let e = ops::delete_user(&mut store, &bob.user, admin.user.id).unwrap_err();
    assert_eq!(e, AuthError::AdminRequired);
    assert_eq!(e.status(), 403);
    assert_eq!(e.message(), "Admin access required");
}

#[test]
fn deleting_a_missing_user_reports_not_found() {
    let mut store = IdentityStore::new();
    let admin = signup(&mut store, "admin_user", "Abcdef12").unwrap();
    let e = ops::delete_user(&mut store, &admin.user, 999).unwrap_err();
    assert_eq!(e, AuthError::TargetNotFound);
    assert_eq!(e.status(), 404);
}

#[test]
fn toggle_admin_is_guarded_and_applies() {
    let mut store = IdentityStore::new();
    let admin = signup(&mut store, "admin_user", "Abcdef12").unwrap();
    let bob = signup(&mut store, "bob_user", "Abcdef12").unwrap();

    let self_change = ops::toggle_admin(&mut store, &admin.user, admin.user.id, false).unwrap_err();
    assert_eq!(self_change, AuthError::SelfRoleChangeBlocked);
    assert_eq!(self_change.message(), "Cannot change your own admin status");

    let unprivileged = ops::toggle_admin(&mut store, &bob.user, admin.user.id, false).unwrap_err();
    assert_eq!(unprivileged, AuthError::AdminRequired);

    ops::toggle_admin(&mut store, &admin.user, bob.user.id, true).unwrap();
    assert!(store.find_user_by_id(bob.user.id).unwrap().is_admin);
    ops::toggle_admin(&mut store, &admin.user, bob.user.id, false).unwrap();
    assert!(!store.find_user_by_id(bob.user.id).unwrap().is_admin);
}

#[test]
fn update_privacy_touches_only_the_owner() {
    let mut store = IdentityStore::new();
    let alice = signup(&mut store, "alice", "Abcdef12").unwrap();
    let bob = signup(&mut store, "bob_user", "Abcdef12").unwrap();
    let reported = ops::update_privacy(&mut store, &alice.user, true);
    assert!(reported);
    assert!(store.find_user_by_id(alice.user.id).unwrap().is_private);
    assert!(!store.find_user_by_id(bob.user.id).unwrap().is_private);
}
