//! Request-level helpers: extracting the session cookie from a `Cookie`
//! header, probing it against the session manager, checking the
//! `Authorization` header, and the two canned responses every gateway variant
//! shares.

use vstd::prelude::*;
use vstd::slice::{slice_index_get, slice_subrange};
use vstd::string::StrSliceExecFns;
use vstd::utf8::{decode_utf8, encode_utf8, valid_utf8};

use crate::auth::Authenticator;
use crate::headers::{
    basic_realm, first_value, h_authorization, h_cookie, h_www_authenticate, Headers, Response,
};
use crate::session::{
    session_live, store_after_check, unix_now, SessionManager, SessionStore,
};
use crate::text::{
    bytes_eq, find_byte_from, first_split, lemma_first_split_at, utf8_to_string,
};

verus! {

/// One `;`-separated cookie part with at most one leading space removed.
pub open spec fn trim_one_space(part: Seq<u8>) -> Seq<u8> {
    if part.len() > 0 && part[0] == 32u8 {
        part.drop_first()
    } else {
        part
    }
}

/// Whether a trimmed cookie part is `name=` followed by a value.
pub open spec fn cookie_part_match(part: Seq<u8>, name: Seq<u8>) -> bool {
    &&& part.len() > name.len()
    &&& part.subrange(0, name.len() as int) == name
    &&& part[name.len() as int] == 61u8
}

/// The value of the cookie called `name` in a `Cookie` header: the header is
/// split on `;`, each part loses at most one leading space, and the first
/// part of the shape `name=value` yields its value.
pub open spec fn cookie_value(name: Seq<u8>, header: Seq<u8>) -> Option<Seq<u8>>
    decreases header.len(),
{
    let j = first_split(header, 59u8);
    let part = trim_one_space(header.subrange(0, j));
    if cookie_part_match(part, name) {
        Some(part.subrange(name.len() as int + 1, part.len() as int))
    } else if 0 <= j && j + 1 < header.len() {
        cookie_value(name, header.subrange(j + 1, header.len() as int))
    } else {
        None
    }
}

/// Get the session id carried under the given cookie name, if any.
pub fn get_session_from_cookie<'a>(cookie_name: &[u8], cookie_header: &'a [u8]) -> (r: Option<
    &'a [u8],
>)
    ensures
        match r {
            Some(v) => cookie_value(cookie_name@, cookie_header@) == Some(v@),
            None => cookie_value(cookie_name@, cookie_header@) is None,
        },
{
    let n = cookie_header.len();
    let mut i: usize = 0;
    proof {
        assert(cookie_header@.skip(0) =~= cookie_header@);
    }
    while i < n
        invariant
            0 <= i <= n,
            n == cookie_header@.len(),
            cookie_value(cookie_name@, cookie_header@) == cookie_value(
                cookie_name@,
                cookie_header@.skip(i as int),
            ),
        decreases n - i,
    {
        let ghost rest = cookie_header@.skip(i as int);
        let j = find_byte_from(cookie_header, i, 59);
        proof {
            assert forall|k: int| 0 <= k < j - i implies rest[k] != 59u8 by {
                assert(rest[k] == cookie_header@[i + k]);
            }
            if j - i < rest.len() {
                assert(rest[j - i] == cookie_header@[j as int]);
            }
            lemma_first_split_at(rest, 59u8, j - i);
        }
        let start = if j > i && *slice_index_get(cookie_header, i) == 32 {
            i + 1
        } else {
            i
        };
        let ghost part = trim_one_space(rest.subrange(0, j - i));
        proof {
            assert(rest.subrange(0, j - i) =~= cookie_header@.subrange(i as int, j as int));
            assert(part =~= cookie_header@.subrange(start as int, j as int));
        }
        if j - start > cookie_name.len() {
            let name_end = start + cookie_name.len();
            let prefix = slice_subrange(cookie_header, start, name_end);
            if bytes_eq(prefix, cookie_name) && *slice_index_get(cookie_header, name_end) == 61 {
                let v = slice_subrange(cookie_header, name_end + 1, j);
                proof {
                    assert(part.subrange(0, cookie_name@.len() as int) =~= prefix@);
                    assert(part[cookie_name@.len() as int] == cookie_header@[name_end as int]);
                    assert(cookie_part_match(part, cookie_name@));
                    assert(part.subrange(cookie_name@.len() as int + 1, part.len() as int) =~= v@);
                }
                return Some(v);
            }
            proof {
                assert(part.subrange(0, cookie_name@.len() as int) =~= prefix@);
                assert(part[cookie_name@.len() as int] == cookie_header@[name_end as int]);
                assert(!cookie_part_match(part, cookie_name@));
            }
        } else {
            proof {
                assert(part.len() <= cookie_name@.len());
                assert(!cookie_part_match(part, cookie_name@));
            }
        }
        if j >= n - 1 {
            proof {
                assert(cookie_value(cookie_name@, rest) is None);
            }
            return None;
        }
        proof {
            assert(rest.subrange(j - i + 1, rest.len() as int) =~= cookie_header@.skip(
                j as int + 1,
            ));
        }
        i = j + 1;
    }
    proof {
        assert(cookie_header@.skip(i as int) =~= Seq::<u8>::empty());
    }
    None
}

/// A cookie the gateway itself hands out is recognized when it comes back:
/// parsing `name=id` for `name` yields exactly `id`, whenever neither part
/// holds a semicolon and the name does not begin with a space.
pub proof fn lemma_issued_cookie_round_trip(name: Seq<u8>, id: Seq<u8>)
    requires
        forall|k: int| 0 <= k < name.len() ==> name[k] != 59u8,
        forall|k: int| 0 <= k < id.len() ==> id[k] != 59u8,
        name.len() > 0 ==> name[0] != 32u8,
    ensures
        cookie_value(name, name + seq![61u8] + id) == Some(id),
{
    let h = name + seq![61u8] + id;
    assert forall|k: int| 0 <= k < h.len() implies h[k] != 59u8 by {
        if k < name.len() {
            assert(h[k] == name[k]);
        } else if k == name.len() {
            assert(h[k] == 61u8);
        } else {
            assert(h[k] == id[k - name.len() - 1]);
        }
    }
    lemma_first_split_at(h, 59u8, h.len() as int);
    assert(h.subrange(0, h.len() as int) =~= h);
    assert(h[0] != 32u8);
    assert(trim_one_space(h) == h);
    assert(h.subrange(0, name.len() as int) =~= name);
    assert(h[name.len() as int] == 61u8);
    assert(cookie_part_match(h, name));
    assert(h.subrange(name.len() as int + 1, h.len() as int) =~= id);
}

/// What a session probe of a request's headers does: the session id named by
/// the cookie, when it is fresh at `now`, and the store as the probe leaves
/// it (a stale entry found by the probe is deleted).
pub open spec fn session_probe(
    store: Map<Seq<char>, u64>,
    max_age: u64,
    cookie_name: Seq<char>,
    hs: Seq<(Seq<u8>, Seq<u8>)>,
    now: u64,
) -> (Option<Seq<char>>, Map<Seq<char>, u64>) {
    match first_value(hs, h_cookie()) {
        None => (None, store),
        Some(ch) => match cookie_value(encode_utf8(cookie_name), ch) {
            None => (None, store),
            Some(sb) => if valid_utf8(sb) {
                if session_live(store, decode_utf8(sb), now, max_age) {
                    (Some(decode_utf8(sb)), store)
                } else {
                    (None, store_after_check(store, decode_utf8(sb), now, max_age))
                }
            } else {
                (None, store)
            },
        },
    }
}

/// Return the session id when the request carries a valid session cookie,
/// judged at the explicit instant `now`.
pub fn headers_has_valid_session_at<S: SessionStore>(
    headers: &Headers,
    session_manager: &mut SessionManager<S>,
    now: u64,
) -> (r: Option<String>)
    ensures
        final(session_manager).cookie_name == old(session_manager).cookie_name,
        final(session_manager).max_age == old(session_manager).max_age,
        ({
            let probe = session_probe(
                old(session_manager).contents(),
                old(session_manager).max_age,
                old(session_manager).cookie_name@,
                headers@,
                now,
            );
            &&& final(session_manager).contents() == probe.1
            &&& match r {
                Some(s) => probe.0 == Some(s@),
                None => probe.0 is None,
            }
        }),
{
    let cookie_header = match headers.get("cookie".as_bytes()) {
        Some(v) => v,
        None => {
            return None;
        },
    };
    let session_bytes = match get_session_from_cookie(
        session_manager.cookie_name.as_str().as_bytes(),
        cookie_header.as_slice(),
    ) {
        Some(b) => b,
        None => {
            return None;
        },
    };
    let sid = match utf8_to_string(session_bytes) {
        Some(s) => s,
        None => {
            return None;
        },
    };
    if session_manager.is_session_valid_at(sid.as_str(), now) {
        Some(sid)
    } else {
        None
    }
}

/// Return the session id when the request carries a valid session cookie,
/// judged at the clock's current time.
pub fn headers_has_valid_session<S: SessionStore>(
    headers: &Headers,
    session_manager: &mut SessionManager<S>,
) -> (r: Option<String>)
    ensures
        final(session_manager).cookie_name == old(session_manager).cookie_name,
        final(session_manager).max_age == old(session_manager).max_age,
        exists|now: u64|
            {
                &&& final(session_manager).contents() == (#[trigger] session_probe(
                    old(session_manager).contents(),
                    old(session_manager).max_age,
                    old(session_manager).cookie_name@,
                    headers@,
                    now,
                )).1
                &&& match r {
                    Some(s) => session_probe(
                        old(session_manager).contents(),
                        old(session_manager).max_age,
                        old(session_manager).cookie_name@,
                        headers@,
                        now,
                    ).0 == Some(s@),
                    None => session_probe(
                        old(session_manager).contents(),
                        old(session_manager).max_age,
                        old(session_manager).cookie_name@,
                        headers@,
                        now,
                    ).0 is None,
                }
            },
{
    let now = unix_now();
    headers_has_valid_session_at(headers, session_manager, now)
}

/// Whether the request's `Authorization` header passes the authenticator; a
/// missing header fails.
pub open spec fn spec_header_auth<A: Authenticator>(
    hs: Seq<(Seq<u8>, Seq<u8>)>,
    authenticator: &A,
) -> bool {
    match first_value(hs, h_authorization()) {
        Some(v) => authenticator.auth_ok(v),
        None => false,
    }
}

/// Return true when the request carries a valid `Authorization` header.
pub fn header_has_valid_auth<A: Authenticator>(headers: &Headers, authenticator: &A) -> (r: bool)
    ensures
        r == spec_header_auth(headers@, authenticator),
{
    match headers.get("authorization".as_bytes()) {
        Some(v) => authenticator.is_auth_header_valid(v.as_slice()),
        None => false,
    }
}

/// The 401 response: a `WWW-Authenticate` challenge and an empty body.
pub fn req_auth() -> (r: Response)
    ensures
        r.status == 401,
        r.headers@ == seq![(h_www_authenticate(), basic_realm())],
{
    let mut headers = Headers::new();
    headers.append("www-authenticate".as_bytes_vec(), "Basic realm=\"Restricted\"".as_bytes_vec());
    proof {
        assert(Seq::<(Seq<u8>, Seq<u8>)>::empty().push((h_www_authenticate(), basic_realm()))
            =~= seq![(h_www_authenticate(), basic_realm())]);
    }
    Response { status: 401, headers }
}

/// The empty 200 response.
pub fn ok_empty() -> (r: Response)
    ensures
        r.status == 200,
        r.headers@ == Seq::<(Seq<u8>, Seq<u8>)>::empty(),
{
    Response { status: 200, headers: Headers::new() }
}

} // verus!
