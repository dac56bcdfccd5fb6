use auth_gateway::session::{MemoryStore, SessionManager, SessionStore};

fn manager(max_age: u64) -> SessionManager<MemoryStore> {
    SessionManager::new("sid".to_string(), MemoryStore::new(), max_age)
}

#[test]
fn created_session_is_immediately_valid() {
    let mut mgr = manager(3600);
    let id = mgr.create_session();
    assert!(mgr.is_session_valid(&id));
}

#[test]
fn expiry_boundary_is_strict() {
    let t0: u64 = 1_700_000_000;
    let mut mgr = manager(3600);
    mgr.record_session("a-session", t0);
    assert!(mgr.is_session_valid_at("a-session", t0 + 3599));
    assert!(!mgr.is_session_valid_at("a-session", t0 + 3600));
}

#[test]
fn invalid_session_is_deleted_lazily() {
    let t0: u64 = 1_700_000_000;
    let mut mgr = manager(60);
    mgr.record_session("stale", t0);
    assert!(!mgr.is_session_valid_at("stale", t0 + 60));
    // the lazy delete took effect: a load finds nothing
    assert_eq!(mgr.store.load("stale"), None);
    // and further checks stay invalid with no more side effects
    assert!(!mgr.is_session_valid_at("stale", t0 + 61));
    assert_eq!(mgr.store.load("stale"), None);
}

#[test]
fn unknown_session_is_invalid() {
    let mut mgr = manager(3600);
    assert!(!mgr.is_session_valid("never-created"));
}

#[test]
fn session_from_the_future_counts_as_fresh() {
    // a creation time ahead of the clock saturates the elapsed age to zero
    let mut mgr = manager(1);
    mgr.record_session("early", 2_000_000_000);
    assert!(mgr.is_session_valid_at("early", 1_999_999_999));
}

#[test]
fn zero_max_age_invalidates_everything() {
    let mut mgr = manager(0);
    mgr.record_session("doomed", 1_700_000_000);
    assert!(!mgr.is_session_valid_at("doomed", 1_700_000_000));
}

#[test]
fn distinct_sessions_validate_independently() {
    let mut mgr = manager(3600);
    let first = mgr.create_session();
    let second = mgr.create_session();
    assert_ne!(first, second);
    assert!(mgr.is_session_valid(&first));
    assert!(mgr.is_session_valid(&second));
}

#[test]
fn store_delete_is_idempotent() {
    let mut store = MemoryStore::new();
    store.save("x", 5);
    assert_eq!(store.load("x"), Some(5));
    assert_eq!(store.delete("x"), Some(5));
    assert_eq!(store.delete("x"), None);
    assert_eq!(store.load("x"), None);
}

#[test]
fn store_save_replaces() {
    let mut store = MemoryStore::new();
    assert_eq!(store.save("x", 5), Some(()));
    assert_eq!(store.save("x", 9), Some(()));
    assert_eq!(store.load("x"), Some(9));
}
