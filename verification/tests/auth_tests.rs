use auth_gateway::auth::{Authenticator, HtpasswdAuth};
use base64::prelude::BASE64_STANDARD;
use base64::Engine;

fn table_with_alice() -> HtpasswdAuth {
    let hash = bcrypt::hash("secret", 4).unwrap();
    let lines = vec![format!("alice:{}", hash)];
    HtpasswdAuth::new(&lines)
}

fn basic_header(user: &str, password: &str) -> Vec<u8> {
    let mut header = b"Basic ".to_vec();
    let encoded = BASE64_STANDARD.encode(format!("{}:{}", user, password));
    header.extend_from_slice(encoded.as_bytes());
    header
}

#[test]
fn non_basic_header_is_rejected() {
    let auth = table_with_alice();
    assert!(!auth.is_auth_header_valid(b"Bearer abcdef"));
    assert!(!auth.is_auth_header_valid(b"basic dXNlcjpwdw=="));
    assert!(!auth.is_auth_header_valid(b""));
    assert!(!auth.is_auth_header_valid(b"Basic"));
}

#[test]
fn bcrypt_credentials_verify() {
    let auth = table_with_alice();
    assert!(auth.is_auth_header_valid(&basic_header("alice", "secret")));
    assert!(!auth.is_auth_header_valid(&basic_header("alice", "wrong")));
    assert!(!auth.is_auth_header_valid(&basic_header("bob", "secret")));
}

#[test]
fn bad_base64_is_rejected() {
    let auth = table_with_alice();
    assert!(!auth.is_auth_header_valid(b"Basic !!!not-base64!!!"));
}

#[test]
fn missing_colon_is_rejected() {
    let auth = table_with_alice();
    let encoded = BASE64_STANDARD.encode("alicesecret");
    let mut header = b"Basic ".to_vec();
    header.extend_from_slice(encoded.as_bytes());
    assert!(!auth.is_auth_header_valid(&header));
}

#[test]
fn malformed_stored_hash_fails_closed() {
    let lines = vec!["alice:not-a-bcrypt-hash".to_string()];
    let auth = HtpasswdAuth::new(&lines);
    assert!(!auth.is_auth_header_valid(&basic_header("alice", "secret")));
}

#[test]
fn malformed_lines_are_skipped_and_last_duplicate_wins() {
    let good = bcrypt::hash("secret", 4).unwrap();
    let other = bcrypt::hash("other", 4).unwrap();
    let lines = vec![
        "no-colon-line".to_string(),
        format!("alice:{}", other),
        format!("alice:{}", good),
    ];
    let auth = HtpasswdAuth::new(&lines);
    assert!(auth.is_auth_header_valid(&basic_header("alice", "secret")));
    assert!(!auth.is_auth_header_valid(&basic_header("alice", "other")));
    assert!(!auth.is_auth_header_valid(&basic_header("no-colon-line", "")));
}

#[test]
fn password_may_contain_colon() {
    let hash = bcrypt::hash("se:cret", 4).unwrap();
    let lines = vec![format!("alice:{}", hash)];
    let auth = HtpasswdAuth::new(&lines);
    assert!(auth.is_auth_header_valid(&basic_header("alice", "se:cret")));
}
