//! Trusted interface to `dashmap::DashMap`, the concurrent hash map that
//! backs both the credential table and the in-memory session store. Verus
//! sees the map as opaque; what it holds is named by `credential_map` and
//! `session_map`, and each method the library calls gets a wrapper whose
//! contract states the ordinary hash-map semantics of that method.

use dashmap::DashMap;
use vstd::prelude::*;

verus! {

#[verifier::external_type_specification]
#[verifier::external_body]
#[verifier::reject_recursive_types(K)]
#[verifier::reject_recursive_types(V)]
#[verifier::reject_recursive_types(S)]
pub struct ExDashMap<K, V, S>(DashMap<K, V, S>);

/// What a username-to-password-hash table holds.
pub uninterp spec fn credential_map(m: DashMap<String, String>) -> Map<Seq<char>, Seq<char>>;

/// What a session-id-to-timestamp table holds.
pub uninterp spec fn session_map(m: DashMap<String, u64>) -> Map<Seq<char>, u64>;

/// Relies on `DashMap::new`: the new map is empty.
#[verifier::external_body]
pub fn credential_map_new() -> (r: DashMap<String, String>)
    ensures
        credential_map(r) =~= Map::empty(),
{
    DashMap::new()
}

/// Relies on `DashMap::insert`: it maps the key to the new value and leaves
/// every other key alone.
#[verifier::external_body]
pub fn credential_map_insert(m: &mut DashMap<String, String>, key: String, value: String)
    ensures
        credential_map(*final(m)) == credential_map(*old(m)).insert(key@, value@),
{
    m.insert(key, value);
}

/// Relies on `DashMap::get`: it returns the value mapped to the key, or
/// nothing when the key is absent. The wrapper hands back a clone.
#[verifier::external_body]
pub fn credential_map_get(m: &DashMap<String, String>, key: &str) -> (r: Option<String>)
    ensures
        match r {
            Some(v) => credential_map(*m).contains_key(key@) && v@ == credential_map(*m)[key@],
            None => !credential_map(*m).contains_key(key@),
        },
{
    m.get(key).map(|v| v.value().clone())
}

/// Relies on `DashMap::new`: the new map is empty.
#[verifier::external_body]
pub fn session_map_new() -> (r: DashMap<String, u64>)
    ensures
        session_map(r) =~= Map::empty(),
{
    DashMap::new()
}

/// Relies on `DashMap::insert`: it maps the key to the new value, leaves every
/// other key alone, and returns the value the key had before, if any.
#[verifier::external_body]
pub fn session_map_insert(m: &mut DashMap<String, u64>, key: String, value: u64) -> (r: Option<
    u64,
>)
    ensures
        session_map(*final(m)) == session_map(*old(m)).insert(key@, value),
        match r {
            Some(v) => session_map(*old(m)).contains_key(key@) && v == session_map(*old(m))[key@],
            None => !session_map(*old(m)).contains_key(key@),
        },
{
    m.insert(key, value)
}

/// Relies on `DashMap::get`: it returns the value mapped to the key, or
/// nothing when the key is absent.
#[verifier::external_body]
pub fn session_map_get(m: &DashMap<String, u64>, key: &str) -> (r: Option<u64>)
    ensures
        match r {
            Some(v) => session_map(*m).contains_key(key@) && v == session_map(*m)[key@],
            None => !session_map(*m).contains_key(key@),
        },
{
    m.get(key).map(|v| *v.value())
}

/// Relies on `DashMap::remove`: it removes the key and returns the value it
/// had, or nothing when the key was absent.
#[verifier::external_body]
pub fn session_map_remove(m: &mut DashMap<String, u64>, key: &str) -> (r: Option<u64>)
    ensures
        session_map(*final(m)) == session_map(*old(m)).remove(key@),
        match r {
            Some(v) => session_map(*old(m)).contains_key(key@) && v == session_map(*old(m))[key@],
            None => !session_map(*old(m)).contains_key(key@),
        },
{
    m.remove(key).map(|kv| kv.1)
}

} // verus!
