//! The auth-only gateway: invoked as a sub-request by a front-end reverse
//! proxy, it answers 200 or 401 with an empty body. When credentials (rather
//! than an existing session cookie) authenticate the request, the fresh
//! session is handed back in a configurable response header as
//! `cookieName=sessionId`, for the front end to relay as its own `Set-Cookie`.

use vstd::prelude::*;
use vstd::string::StrSliceExecFns;
use vstd::utf8::encode_utf8;

use crate::auth::Authenticator;
use crate::headers::{basic_realm, h_www_authenticate, Headers, Response};
use crate::service::{is_valid_header_name, valid_header_name, GatewayError};
use crate::session::{fresh_session_id, unix_now, SessionManager, SessionStore};
use crate::text::{lower_bytes, push_all, to_lower_bytes};
use crate::utils::{
    header_has_valid_auth, headers_has_valid_session_at, ok_empty, req_auth, session_probe,
    spec_header_auth,
};

verus! {

/// The auth-return header's value for a fresh session: `cookieName=sessionId`.
pub open spec fn auth_return_value(cookie_name: Seq<char>, id: Seq<char>) -> Seq<u8> {
    encode_utf8(cookie_name) + seq![61u8] + encode_utf8(id)
}

/// One auth-only request decided at instant `now` with `fresh_id` on hand:
/// the store afterwards, the status, and the response headers. A live session
/// cookie answers 200 with no extra header; otherwise valid credentials
/// answer 200 with the auth-return header and record the fresh session;
/// otherwise 401 with the challenge.
pub open spec fn auth_only_transition<A: Authenticator>(
    authenticator: &A,
    store: Map<Seq<char>, u64>,
    max_age: u64,
    cookie_name: Seq<char>,
    return_header: Seq<u8>,
    hs: Seq<(Seq<u8>, Seq<u8>)>,
    now: u64,
    fresh_id: Seq<char>,
) -> (Map<Seq<char>, u64>, u16, Seq<(Seq<u8>, Seq<u8>)>) {
    let probe = session_probe(store, max_age, cookie_name, hs, now);
    if probe.0 is Some {
        (probe.1, 200u16, Seq::empty())
    } else if spec_header_auth(hs, authenticator) {
        (
            probe.1.insert(fresh_id, now),
            200u16,
            seq![(return_header, auth_return_value(cookie_name, fresh_id))],
        )
    } else {
        (probe.1, 401u16, seq![(h_www_authenticate(), basic_realm())])
    }
}

/// The auth-only gateway service.
pub struct AuthOnlySvc<A: Authenticator, S: SessionStore> {
    pub auth: A,
    pub auth_return_header_name: Vec<u8>,
    pub session_manager: SessionManager<S>,
}

impl<A: Authenticator, S: SessionStore> AuthOnlySvc<A, S> {
    /// Build the service; the configured header name is lowercased and must
    /// be a valid header name, else construction fails.
    pub fn new(
        authenticator: A,
        auth_return_header_name: &str,
        session_manager: SessionManager<S>,
    ) -> (r: Result<AuthOnlySvc<A, S>, GatewayError>)
        ensures
            match r {
                Ok(svc) => {
                    &&& valid_header_name(lower_bytes(encode_utf8(auth_return_header_name@)))
                    &&& svc.auth == authenticator
                    &&& svc.auth_return_header_name@ == lower_bytes(
                        encode_utf8(auth_return_header_name@),
                    )
                    &&& svc.session_manager == session_manager
                },
                Err(e) => {
                    &&& !valid_header_name(lower_bytes(encode_utf8(auth_return_header_name@)))
                    &&& e == GatewayError::InvalidHeaderName
                },
            },
    {
        let name = to_lower_bytes(auth_return_header_name.as_bytes());
        if !is_valid_header_name(name.as_slice()) {
            return Err(GatewayError::InvalidHeaderName);
        }
        Ok(AuthOnlySvc { auth: authenticator, auth_return_header_name: name, session_manager })
    }

    /// Decide one request at the explicit instant `now`, with `fresh_id` as
    /// the id a newly created session would get.
    pub fn call_at(&mut self, req_headers: &Headers, now: u64, fresh_id: &str) -> (resp: Response)
        ensures
            ({
                let t = auth_only_transition(
                    &old(self).auth,
                    old(self).session_manager.contents(),
                    old(self).session_manager.max_age,
                    old(self).session_manager.cookie_name@,
                    old(self).auth_return_header_name@,
                    req_headers@,
                    now,
                    fresh_id@,
                );
                &&& final(self).session_manager.contents() == t.0
                &&& resp.status == t.1
                &&& resp.headers@ == t.2
            }),
            final(self).auth == old(self).auth,
            final(self).auth_return_header_name == old(self).auth_return_header_name,
            final(self).session_manager.cookie_name == old(self).session_manager.cookie_name,
            final(self).session_manager.max_age == old(self).session_manager.max_age,
    {
        let session = headers_has_valid_session_at(req_headers, &mut self.session_manager, now);
        if session.is_none() {
            if header_has_valid_auth(req_headers, &self.auth) {
                self.session_manager.record_session(fresh_id, now);
                let mut value: Vec<u8> = Vec::new();
                push_all(&mut value, self.session_manager.cookie_name.as_str().as_bytes());
                value.push(61);
                push_all(&mut value, fresh_id.as_bytes());
                let mut name: Vec<u8> = Vec::new();
                push_all(&mut name, self.auth_return_header_name.as_slice());
                let mut resp = ok_empty();
                resp.headers.append(name, value);
                proof {
                    assert(value@ =~= auth_return_value(
                        old(self).session_manager.cookie_name@,
                        fresh_id@,
                    ));
                    assert(resp.headers@ =~= seq![
                        (
                            old(self).auth_return_header_name@,
                            auth_return_value(old(self).session_manager.cookie_name@, fresh_id@),
                        ),
                    ]);
                }
                return resp;
            }
            return req_auth();
        }
        ok_empty()
    }

    /// Decide one request at the clock's current time, drawing a fresh random
    /// id for the session that valid credentials would create.
    pub fn call(&mut self, req_headers: &Headers) -> (resp: Response)
        ensures
            exists|now: u64, fresh_id: Seq<char>|
                {
                    let t = #[trigger] auth_only_transition(
                        &old(self).auth,
                        old(self).session_manager.contents(),
                        old(self).session_manager.max_age,
                        old(self).session_manager.cookie_name@,
                        old(self).auth_return_header_name@,
                        req_headers@,
                        now,
                        fresh_id,
                    );
                    &&& final(self).session_manager.contents() == t.0
                    &&& resp.status == t.1
                    &&& resp.headers@ == t.2
                },
            final(self).auth == old(self).auth,
            final(self).auth_return_header_name == old(self).auth_return_header_name,
            final(self).session_manager.cookie_name == old(self).session_manager.cookie_name,
            final(self).session_manager.max_age == old(self).session_manager.max_age,
    {
        let now = unix_now();
        let fresh_id = fresh_session_id();
        self.call_at(req_headers, now, fresh_id.as_str())
    }
}

} // verus!
