use scrob::api::{batch_within_limit, clamp_limit, error_response, login_response};
use scrob::codec::{hash_password, verify_password};
use scrob::config::Config;
use scrob::errors::AuthError;
use scrob::request::{extract_token_from_header, require_identity, resolve_request, RequestIdentity};
use scrob::session::signup;
use scrob::store::IdentityStore;
use scrob::text::{parse_u16, str_eq, u16_to_string};

#[test]
fn verifying_a_fresh_hash_succeeds() {
    let hash = hash_password("Sup3rSecret").expect("hashing must succeed");
    assert!(verify_password("Sup3rSecret", &hash).expect("well-formed hash"));
    assert_ne!(hash, "Sup3rSecret");
}

#[test]
fn verifying_a_different_password_fails() {
    let hash = hash_password("Sup3rSecret").unwrap();
    assert!(!verify_password("sup3rsecret", &hash).unwrap());
    assert!(!verify_password("Sup3rSecre", &hash).unwrap());
    assert!(!verify_password("", &hash).unwrap());
}

#[test]
fn verifying_against_a_malformed_hash_errors() {
    assert!(verify_password("anything1A", "not a bcrypt hash").is_err());
}

#[test]
fn extract_token_requires_exact_bearer_prefix() {
    assert_eq!(
        extract_token_from_header("Bearer abc123").as_deref(),
        Some("abc123")
    );
    assert_eq!(
        extract_token_from_header("Bearer   abc123  ").as_deref(),
        Some("abc123")
    );
    assert_eq!(extract_token_from_header("Bearer ").as_deref(), Some(""));
    // surrounding whitespace is the Unicode White_Space set, as str::trim has it
    assert_eq!(
        extract_token_from_header("Bearer \u{00A0}abc123\u{00A0}").as_deref(),
        Some("abc123")
    );
    assert_eq!(
        extract_token_from_header("Bearer \u{000B}abc123\u{000C}").as_deref(),
        Some("abc123")
    );
    assert_eq!(
        extract_token_from_header("Bearer \u{2003}\u{3000}abc123\u{2028}").as_deref(),
        Some("abc123")
    );
    let raw = "Bearer \u{1680}tok\u{205F}\u{2029}";
    assert_eq!(
        extract_token_from_header(raw).as_deref(),
        Some(raw.strip_prefix("Bearer ").unwrap().trim())
    );
    assert_eq!(extract_token_from_header("bearer abc123"), None);
    assert_eq!(extract_token_from_header("Basic abc123"), None);
    assert_eq!(extract_token_from_header("Bearer"), None);
    assert_eq!(extract_token_from_header(""), None);
}

#[test]
fn resolve_request_maps_headers_to_identities() {
    let mut store = IdentityStore::new();
    let alice = signup(&mut store, "alice", "Abcdef12").unwrap();
    let header = format!("Bearer {}", alice.token);

    match resolve_request(&mut store, Some(&header)) {
        RequestIdentity::Identity(u) => assert_eq!(u.id, alice.user.id),
        _ => panic!("valid header must resolve"),
    }
    assert!(matches!(
        resolve_request(&mut store, None),
        RequestIdentity::NoCredential
    ));
    assert!(matches!(
        resolve_request(&mut store, Some("Token abc")),
        RequestIdentity::NoCredential
    ));
    assert!(matches!(
        resolve_request(&mut store, Some("Bearer notatoken")),
        RequestIdentity::InvalidCredential
    ));
}

#[test]
fn unauthenticated_shapes_map_to_one_error() {
    let no_credential = require_identity(&RequestIdentity::NoCredential).unwrap_err();
    let invalid_credential = require_identity(&RequestIdentity::InvalidCredential).unwrap_err();
    assert_eq!(no_credential, invalid_credential);
    assert_eq!(no_credential, AuthError::AuthenticationRequired);
    assert_eq!(no_credential.status(), 401);
}

#[test]
fn error_responses_carry_message_and_status() {
    let r = error_response(&AuthError::Storage);
    assert_eq!(r.error, "Database error");
    assert_eq!(r.status, 500);
    let r = error_response(&AuthError::Hashing);
    assert_eq!(r.error, "Password hashing error");
    assert_eq!(r.status, 500);
    let r = error_response(&AuthError::TargetNotFound);
    assert_eq!(r.error, "User not found");
    assert_eq!(r.status, 404);
}

#[test]
fn owner_denials_render_as_forbidden() {
    let r = error_response(&AuthError::NotOwner);
    assert_eq!(r.status, 403);
    assert_eq!(r.error, "Access denied");
}

#[test]
fn login_response_reports_token_and_flags() {
    let mut store = IdentityStore::new();
    let alice = signup(&mut store, "alice", "Abcdef12").unwrap();
    let body = login_response(&alice);
    assert_eq!(body.token, alice.token);
    assert_eq!(body.username, "alice");
    assert!(body.is_admin);
}

#[test]
fn listing_limits_are_clamped() {
    assert_eq!(clamp_limit(None, 20), 20);
    assert_eq!(clamp_limit(Some(5), 20), 5);
    assert_eq!(clamp_limit(Some(500), 20), 100);
    assert_eq!(clamp_limit(None, 10), 10);
}

#[test]
fn batch_cap_is_fifty() {
    assert!(batch_within_limit(0));
    assert!(batch_within_limit(50));
    assert!(!batch_within_limit(51));
}

#[test]
fn bind_address_joins_host_and_port() {
    let config = Config {
        database_url: String::from("postgres://localhost/scrob"),
        port: 3000,
        host: String::from("127.0.0.1"),
    };
    assert_eq!(config.bind_address(), "127.0.0.1:3000");
    let config = Config {
        database_url: String::new(),
        port: 0,
        host: String::from("0.0.0.0"),
    };
    assert_eq!(config.bind_address(), "0.0.0.0:0");
}

#[test]
fn ports_parse_exactly() {
    assert_eq!(parse_u16("3000"), Some(3000));
    assert_eq!(parse_u16("0"), Some(0));
    assert_eq!(parse_u16("65535"), Some(65535));
    assert_eq!(parse_u16("65536"), None);
    assert_eq!(parse_u16(""), None);
    assert_eq!(parse_u16("80a"), None);
    assert_eq!(parse_u16("-1"), None);
}

#[test]
fn decimal_rendering_matches() {
    assert_eq!(u16_to_string(0), "0");
    assert_eq!(u16_to_string(7), "7");
    assert_eq!(u16_to_string(65535), "65535");
}

#[test]
fn string_equality_is_by_content() {
    assert!(str_eq("abc", "abc"));
    assert!(!str_eq("abc", "abd"));
    assert!(!str_eq("abc", "ab"));
    assert!(str_eq("", ""));
}
