//! Basic-authentication checking against a credential table loaded from
//! `name:hash` lines, with bcrypt password verification. Every failure —
//! wrong scheme, bad base64, no colon, unknown user, bad or malformed hash —
//! collapses to a plain `false`, never an error.

use base64::Engine;
use dashmap::DashMap;
use vstd::prelude::*;
use vstd::slice::slice_subrange;
use vstd::utf8::{decode_utf8, encode_utf8, valid_utf8};

use crate::shared_map::{
    credential_map, credential_map_get, credential_map_insert, credential_map_new,
};
use crate::text::{
    bytes_starts_with, find_byte_from, first_split, lemma_first_split_at, starts_with,
    utf8_to_string,
};

verus! {

/// The bytes of the literal `"Basic "` that a Basic-scheme header value must
/// begin with.
pub open spec fn basic_prefix() -> Seq<u8> {
    encode_utf8("Basic "@)
}

/// What `base64::Engine::decode` with the standard engine returns: a function
/// of the input bytes alone — the decoded bytes, or nothing when the input is
/// not valid padded standard base64.
pub uninterp spec fn base64_decode_of(input: Seq<u8>) -> Option<Seq<u8>>;

/// Relies on `base64::prelude::BASE64_STANDARD`'s `decode`: decoding is
/// deterministic in the input bytes.
#[verifier::external_body]
fn base64_decode(input: &[u8]) -> (r: Option<Vec<u8>>)
    ensures
        match r {
            Some(v) => base64_decode_of(input@) == Some(v@),
            None => base64_decode_of(input@) is None,
        },
{
    base64::prelude::BASE64_STANDARD.decode(input).ok()
}

/// What `bcrypt::verify` returns for a password and a stored hash: a function
/// of the two arguments alone — the verdict, or nothing when the stored hash
/// cannot be parsed as a bcrypt hash.
pub uninterp spec fn bcrypt_verify_of(password: Seq<u8>, hash: Seq<char>) -> Option<bool>;

/// Relies on `bcrypt::verify`: checking a password against a stored bcrypt
/// hash is deterministic in the pair.
#[verifier::external_body]
fn bcrypt_check(password: &[u8], hash: &str) -> (r: Option<bool>)
    ensures
        r == bcrypt_verify_of(password@, hash@),
{
    bcrypt::verify(password, hash).ok()
}

/// Whether one `Authorization` value passes against a credential table: the
/// `"Basic "` prefix, then base64, then a `username:password` split at the
/// first colon, then a known user whose stored hash verifies the password.
pub open spec fn basic_auth_ok(table: Map<Seq<char>, Seq<char>>, header: Seq<u8>) -> bool {
    &&& starts_with(header, basic_prefix())
    &&& match base64_decode_of(header.skip(basic_prefix().len() as int)) {
        Some(decoded) => basic_credentials_ok(table, decoded),
        None => false,
    }
}

/// Whether decoded `username:password` bytes pass against the table.
pub open spec fn basic_credentials_ok(table: Map<Seq<char>, Seq<char>>, decoded: Seq<u8>) -> bool {
    let c = first_split(decoded, 58u8);
    if c >= decoded.len() {
        false
    } else {
        let user = decoded.subrange(0, c);
        let pass = decoded.subrange(c + 1, decoded.len() as int);
        valid_utf8(user) && table.contains_key(decode_utf8(user)) && bcrypt_verify_of(
            pass,
            table[decode_utf8(user)],
        ) == Some(true)
    }
}

/// A header value that does not begin with `"Basic "` is rejected, whatever
/// the credential table holds.
pub proof fn lemma_non_basic_rejected(table: Map<Seq<char>, Seq<char>>, header: Seq<u8>)
    requires
        !starts_with(header, basic_prefix()),
    ensures
        !basic_auth_ok(table, header),
{
}

pub trait Authenticator {
    /// The verdict this checker reaches on an `Authorization` value.
    spec fn auth_ok(&self, header: Seq<u8>) -> bool;

    /// Check one `Authorization` header value, failing closed.
    fn is_auth_header_valid(&self, header: &[u8]) -> (r: bool)
        ensures
            r == self.auth_ok(header@),
    ;
}

/// The entry one `name:hash` line contributes: split at the first colon; a
/// line without a colon is skipped.
pub open spec fn line_entry(line: Seq<char>) -> Option<(Seq<char>, Seq<char>)> {
    let bytes = encode_utf8(line);
    let c = first_split(bytes, 58u8);
    if c >= bytes.len() {
        None
    } else {
        let name = bytes.subrange(0, c);
        let hash = bytes.subrange(c + 1, bytes.len() as int);
        if valid_utf8(name) && valid_utf8(hash) {
            Some((decode_utf8(name), decode_utf8(hash)))
        } else {
            None
        }
    }
}

/// The table a list of lines loads: malformed lines skipped, a duplicate
/// username taking the last line's hash.
pub open spec fn table_of(lines: Seq<Seq<char>>) -> Map<Seq<char>, Seq<char>>
    decreases lines.len(),
{
    if lines.len() == 0 {
        Map::empty()
    } else {
        match line_entry(lines.last()) {
            Some(e) => table_of(lines.drop_last()).insert(e.0, e.1),
            None => table_of(lines.drop_last()),
        }
    }
}

/// Basic-auth checker over a credential table in htpasswd form.
pub struct HtpasswdAuth {
    credentials: DashMap<String, String>,
}

impl HtpasswdAuth {
    /// The loaded table: username to stored bcrypt hash.
    pub closed spec fn table(&self) -> Map<Seq<char>, Seq<char>> {
        credential_map(self.credentials)
    }

    /// Load a credential table from the lines of an htpasswd file.
    pub fn new(lines: &Vec<String>) -> (r: HtpasswdAuth)
        ensures
            r.table() == table_of(lines.deep_view()),
    {
        let mut credentials = credential_map_new();
        let mut i: usize = 0;
        proof {
            assert(lines.deep_view().take(0) =~= Seq::<Seq<char>>::empty());
        }
        while i < lines.len()
            invariant
                0 <= i <= lines@.len(),
                credential_map(credentials) == table_of(lines.deep_view().take(i as int)),
            decreases lines@.len() - i,
        {
            let line: &String = &lines[i];
            let bytes = line.as_str().as_bytes();
            let c = find_byte_from(bytes, 0, 58);
            proof {
                lemma_first_split_at(bytes@, 58u8, c as int);
                assert(lines.deep_view().take(i as int + 1).drop_last() =~= lines.deep_view().take(
                    i as int,
                ));
                assert(lines.deep_view().take(i as int + 1).last() == line@);
            }
            if c < bytes.len() {
                let name_b = slice_subrange(bytes, 0, c);
                let hash_b = slice_subrange(bytes, c + 1, bytes.len());
                if let Some(name) = utf8_to_string(name_b) {
                    if let Some(hash) = utf8_to_string(hash_b) {
                        credential_map_insert(&mut credentials, name, hash);
                    }
                }
            }
            i = i + 1;
        }
        proof {
            assert(lines.deep_view().take(i as int) =~= lines.deep_view());
        }
        HtpasswdAuth { credentials }
    }
}

impl Authenticator for HtpasswdAuth {
    open spec fn auth_ok(&self, header: Seq<u8>) -> bool {
        basic_auth_ok(self.table(), header)
    }

    fn is_auth_header_valid(&self, header: &[u8]) -> (r: bool)
        ensures
            r == self.auth_ok(header@),
    {
        let prefix = "Basic ".as_bytes();
        if !bytes_starts_with(header, prefix) {
            return false;
        }
        let payload = slice_subrange(header, prefix.len(), header.len());
        proof {
            assert(payload@ =~= header@.skip(basic_prefix().len() as int));
        }
        let decoded = match base64_decode(payload) {
            Some(d) => d,
            None => {
                return false;
            },
        };
        let ds = decoded.as_slice();
        let c = find_byte_from(ds, 0, 58);
        proof {
            lemma_first_split_at(ds@, 58u8, c as int);
        }
        if c == ds.len() {
            return false;
        }
        let user = slice_subrange(ds, 0, c);
        let pass = slice_subrange(ds, c + 1, ds.len());
        let name = match utf8_to_string(user) {
            Some(n) => n,
            None => {
                return false;
            },
        };
        let hash = match credential_map_get(&self.credentials, name.as_str()) {
            Some(h) => h,
            None => {
                return false;
            },
        };
        match bcrypt_check(pass, hash.as_str()) {
            Some(true) => true,
            _ => false,
        }
    }
}

} // verus!
