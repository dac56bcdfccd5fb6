//! Sessions: a key/value store of session id to creation time, and the
//! manager that issues ids and judges freshness. A session is valid exactly
//! while `now - created < max_age` (saturating at zero for a creation time in
//! the future); an expired entry is deleted the moment a check finds it —
//! lazy, read-triggered cleanup, with no background sweep.

use dashmap::DashMap;
use vstd::prelude::*;
use vstd::string::StringExecFns;

use crate::shared_map::{session_map, session_map_get, session_map_insert, session_map_new,
    session_map_remove};

verus! {

/// `now - created`, saturating at zero.
pub open spec fn elapsed(now: u64, created: u64) -> u64 {
    if now >= created {
        (now - created) as u64
    } else {
        0
    }
}

/// Whether the store holds `id` and it is still fresh at `now`: strict
/// inequality, so a session created at `t` dies exactly at `t + max_age`.
pub open spec fn session_live(
    store: Map<Seq<char>, u64>,
    id: Seq<char>,
    now: u64,
    max_age: u64,
) -> bool {
    store.contains_key(id) && elapsed(now, store[id]) < max_age
}

/// The store after a validity check of `id` at `now`: unchanged, unless the
/// check found a stale entry, which it deletes.
pub open spec fn store_after_check(
    store: Map<Seq<char>, u64>,
    id: Seq<char>,
    now: u64,
    max_age: u64,
) -> Map<Seq<char>, u64> {
    if store.contains_key(id) && !session_live(store, id, now, max_age) {
        store.remove(id)
    } else {
        store
    }
}

/// A session store: session id to unix creation time. The contract is the
/// plain key/value semantics; the in-memory store below meets it in full.
pub trait SessionStore {
    /// What the store holds. An implementation outside the verified library
    /// is never checked against these contracts; whatever it promises here is
    /// taken on trust by its users.
    open spec fn contents(&self) -> Map<Seq<char>, u64> {
        Map::empty()
    }

    /// The stored creation time of `session_id`, or nothing when unknown.
    fn load(&self, session_id: &str) -> (r: Option<u64>)
        ensures
            match r {
                Some(t) => self.contents().contains_key(session_id@) && t
                    == self.contents().index(session_id@),
                None => !self.contents().contains_key(session_id@),
            },
    ;

    /// Record `session_id` as created at `timestamp`, replacing any older
    /// entry; the result signals success, best-effort.
    fn save(&mut self, session_id: &str, timestamp: u64) -> (r: Option<()>)
        ensures
            final(self).contents() == old(self).contents().insert(session_id@, timestamp),
    ;

    /// Remove `session_id`, returning the creation time it had; deleting an
    /// absent id is not an error.
    fn delete(&mut self, session_id: &str) -> (r: Option<u64>)
        ensures
            final(self).contents() == old(self).contents().remove(session_id@),
            match r {
                Some(t) => old(self).contents().contains_key(session_id@) && t == old(
                    self,
                ).contents().index(session_id@),
                None => !old(self).contents().contains_key(session_id@),
            },
    ;
}

/// The in-process session store: a concurrent table, nothing persisted across
/// restarts.
pub struct MemoryStore {
    inner: DashMap<String, u64>,
}

impl MemoryStore {
    pub fn new() -> (r: MemoryStore)
        ensures
            r.contents() == Map::<Seq<char>, u64>::empty(),
    {
        MemoryStore { inner: session_map_new() }
    }
}

impl SessionStore for MemoryStore {
    closed spec fn contents(&self) -> Map<Seq<char>, u64> {
        session_map(self.inner)
    }

    fn load(&self, session_id: &str) -> (r: Option<u64>) {
        session_map_get(&self.inner, session_id)
    }

    fn save(&mut self, session_id: &str, timestamp: u64) -> (r: Option<()>)
        ensures
            r is Some,
    {
        let _ = session_map_insert(&mut self.inner, String::from_str(session_id), timestamp);
        Some(())
    }

    fn delete(&mut self, session_id: &str) -> (r: Option<u64>) {
        session_map_remove(&mut self.inner, session_id)
    }
}

/// Relies on `uuid::Uuid::new_v4` and its `Display`: a fresh random
/// version-4 UUID rendered in the hyphenated form, which is 36 characters
/// long. Nothing is assumed about which id comes out.
#[verifier::external_body]
pub fn fresh_session_id() -> (r: String)
    ensures
        r@.len() == 36,
{
    uuid::Uuid::new_v4().to_string()
}

/// Relies on `std::time::SystemTime::now`: the seconds since the unix epoch,
/// about which nothing is assumed (zero for a clock before the epoch).
#[verifier::external_body]
pub fn unix_now() -> u64 {
    match std::time::SystemTime::now().duration_since(std::time::UNIX_EPOCH) {
        Ok(d) => d.as_secs(),
        Err(_) => 0,
    }
}

/// Issues session ids and judges their freshness against a store.
pub struct SessionManager<S: SessionStore> {
    pub cookie_name: String,
    pub max_age: u64,
    pub store: S,
}

impl<S: SessionStore> SessionManager<S> {
    /// What the manager's store holds.
    pub closed spec fn contents(&self) -> Map<Seq<char>, u64> {
        self.store.contents()
    }

    pub fn new(cookie_name: String, store: S, max_age: u64) -> (r: SessionManager<S>)
        ensures
            r.cookie_name == cookie_name,
            r.max_age == max_age,
            r.contents() == store.contents(),
    {
        SessionManager { cookie_name, store, max_age }
    }

    /// Record a session id as created at `now`. Store failure would be
    /// ignored — the id is handed out regardless.
    pub fn record_session(&mut self, session_id: &str, now: u64)
        ensures
            final(self).contents() == old(self).contents().insert(session_id@, now),
            final(self).cookie_name == old(self).cookie_name,
            final(self).max_age == old(self).max_age,
    {
        let _ = self.store.save(session_id, now);
    }

    /// Generate a fresh random id, record it at the clock's current time, and
    /// return it.
    pub fn create_session(&mut self) -> (r: String)
        ensures
            exists|now: u64|
                final(self).contents() == old(self).contents().insert(r@, now),
            final(self).cookie_name == old(self).cookie_name,
            final(self).max_age == old(self).max_age,
            r@.len() == 36,
    {
        let id = fresh_session_id();
        let now = unix_now();
        self.record_session(id.as_str(), now);
        id
    }

    /// Judge `session` at the explicit instant `now`: valid exactly when the
    /// store knows it and it has not yet reached `max_age`; a stale entry is
    /// deleted on the spot.
    pub fn is_session_valid_at(&mut self, session: &str, now: u64) -> (r: bool)
        ensures
            r == session_live(old(self).contents(), session@, now, old(self).max_age),
            final(self).contents() == store_after_check(
                old(self).contents(),
                session@,
                now,
                old(self).max_age,
            ),
            final(self).cookie_name == old(self).cookie_name,
            final(self).max_age == old(self).max_age,
    {
        let since = match self.store.load(session) {
            Some(t) => t,
            None => {
                return false;
            },
        };
        let diff = if now >= since {
            now - since
        } else {
            0
        };
        let res = diff < self.max_age;
        if !res {
            let _ = self.store.delete(session);
        }
        res
    }

    /// Judge `session` at the clock's current time.
    pub fn is_session_valid(&mut self, session: &str) -> (r: bool)
        ensures
            exists|now: u64|
                r == session_live(old(self).contents(), session@, now, old(self).max_age)
                    && final(self).contents() == store_after_check(
                    old(self).contents(),
                    session@,
                    now,
                    old(self).max_age,
                ),
            final(self).cookie_name == old(self).cookie_name,
            final(self).max_age == old(self).max_age,
    {
        let now = unix_now();
        self.is_session_valid_at(session, now)
    }
}

/// A session recorded at `now` is immediately valid, as long as sessions can
/// be valid at all (`max_age > 0`).
pub proof fn lemma_new_session_is_valid(
    store: Map<Seq<char>, u64>,
    id: Seq<char>,
    now: u64,
    max_age: u64,
)
    requires
        max_age > 0,
    ensures
        session_live(store.insert(id, now), id, now, max_age),
{
    assert(store.insert(id, now)[id] == now);
}

/// The expiry boundary is strict: a session is still valid one second before
/// its age reaches `max_age` and invalid the moment it does.
pub proof fn lemma_expiry_boundary(
    store: Map<Seq<char>, u64>,
    id: Seq<char>,
    created: u64,
    max_age: u64,
)
    requires
        store.contains_key(id),
        store[id] == created,
        max_age > 0,
        created + max_age <= u64::MAX,
    ensures
        session_live(store, id, (created + max_age - 1) as u64, max_age),
        !session_live(store, id, (created + max_age) as u64, max_age),
{
}

/// Once a check has found a session invalid, the stale entry is gone: a load
/// finds nothing, and any later check of the same id stays invalid and
/// changes nothing more.
pub proof fn lemma_invalid_session_stays_invalid(
    store: Map<Seq<char>, u64>,
    id: Seq<char>,
    now: u64,
    later: u64,
    max_age: u64,
)
    requires
        !session_live(store, id, now, max_age),
    ensures
        !store_after_check(store, id, now, max_age).contains_key(id),
        !session_live(store_after_check(store, id, now, max_age), id, later, max_age),
        store_after_check(store_after_check(store, id, now, max_age), id, later, max_age)
            == store_after_check(store, id, now, max_age),
{
}

/// Sessions are independent: recording a second, distinct id leaves the first
/// one valid, and each validates on its own.
pub proof fn lemma_distinct_sessions_both_valid(
    store: Map<Seq<char>, u64>,
    first_id: Seq<char>,
    second_id: Seq<char>,
    t1: u64,
    t2: u64,
    now: u64,
    max_age: u64,
)
    requires
        first_id != second_id,
        elapsed(now, t1) < max_age,
        elapsed(now, t2) < max_age,
    ensures
        session_live(store.insert(first_id, t1).insert(second_id, t2), first_id, now, max_age),
        session_live(store.insert(first_id, t1).insert(second_id, t2), second_id, now, max_age),
{
    let m = store.insert(first_id, t1).insert(second_id, t2);
    assert(m[first_id] == t1);
    assert(m[second_id] == t2);
}

} // verus!
