//! The authenticating reverse proxy: the same session/credential decision as
//! the auth-only gateway, and on success the request is prepared for the
//! fixed backend — the Basic `Authorization` header stripped, the `Host`
//! header rewritten — and handed to the transport to forward. A session
//! created on this request rides back on a `Set-Cookie` header appended to
//! the backend's response.

use vstd::prelude::*;
use vstd::string::StrSliceExecFns;
use vstd::utf8::encode_utf8;

use crate::auth::Authenticator;
use crate::client::{ProxyClient, ProxyTarget, uri_authority_of};
use crate::headers::{
    basic_realm, h_set_cookie, h_www_authenticate, rewrite_host, strip_basic_authorization,
    Headers, Response,
};
use crate::service::GatewayError;
use crate::session::{fresh_session_id, unix_now, SessionManager, SessionStore};
use crate::text::{bytes_starts_with, dec_bytes, push_all, u64_to_dec};
use crate::utils::{
    header_has_valid_auth, headers_has_valid_session_at, req_auth, session_probe,
    spec_header_auth,
};

verus! {

/// The `Set-Cookie` value a fresh session rides back on:
/// `cookieName=sessionId; HttpOnly; Max-Age=maxAge`.
pub open spec fn set_cookie_value(cookie_name: Seq<char>, id: Seq<char>, max_age: u64) -> Seq<u8> {
    encode_utf8(cookie_name) + seq![61u8] + encode_utf8(id) + encode_utf8("; HttpOnly; Max-Age="@)
        + dec_bytes(max_age as int)
}

/// What the gateway tells the transport to do with one request.
pub enum ProxyAction {
    /// Answer the client directly, without touching the backend.
    Respond(Response),
    /// Forward the prepared request; on success, append this `Set-Cookie`
    /// value to the backend's response, if one is given.
    Forward { set_cookie: Option<Vec<u8>> },
}

/// A forwarded request's headers as the backend must see them: credentials
/// stripped, host rewritten.
pub open spec fn prepared_headers(hs: Seq<(Seq<u8>, Seq<u8>)>, host: Seq<u8>) -> Seq<
    (Seq<u8>, Seq<u8>),
> {
    rewrite_host(strip_basic_authorization(hs), host)
}

/// One reverse-proxy request decided at instant `now` with `fresh_id` on
/// hand: the store afterwards, the request headers as the transport must
/// forward them, and the verdict — `None` for an immediate 401, `Some(None)`
/// to forward with no new session, `Some(Some(v))` to forward and append the
/// `Set-Cookie` value `v` to the backend's response.
pub open spec fn rev_proxy_transition<A: Authenticator>(
    authenticator: &A,
    store: Map<Seq<char>, u64>,
    max_age: u64,
    cookie_name: Seq<char>,
    host: Seq<u8>,
    hs: Seq<(Seq<u8>, Seq<u8>)>,
    now: u64,
    fresh_id: Seq<char>,
) -> (Map<Seq<char>, u64>, Seq<(Seq<u8>, Seq<u8>)>, Option<Option<Seq<u8>>>) {
    let probe = session_probe(store, max_age, cookie_name, hs, now);
    if probe.0 is Some {
        (probe.1, prepared_headers(hs, host), Some(None))
    } else if spec_header_auth(hs, authenticator) {
        (
            probe.1.insert(fresh_id, now),
            prepared_headers(hs, host),
            Some(Some(set_cookie_value(cookie_name, fresh_id, max_age))),
        )
    } else {
        (probe.1, hs, None)
    }
}

/// Whether an action is the one a transition verdict calls for.
pub open spec fn action_matches(action: ProxyAction, verdict: Option<Option<Seq<u8>>>) -> bool {
    match action {
        ProxyAction::Respond(resp) => verdict is None && resp.status == 401 && resp.headers@
            == seq![(h_www_authenticate(), basic_realm())],
        ProxyAction::Forward { set_cookie } => match set_cookie {
            None => verdict == Some(None::<Seq<u8>>),
            Some(c) => verdict == Some(Some(c@)),
        },
    }
}

/// The authenticating reverse-proxy gateway.
pub struct AuthRevPrxSvc<A: Authenticator, S: SessionStore, C: ProxyClient> {
    pub auth: A,
    pub session_manager: SessionManager<S>,
    pub client: C,
    pub target: ProxyTarget,
    pub host_header: Vec<u8>,
}

impl<A: Authenticator, S: SessionStore, C: ProxyClient> AuthRevPrxSvc<A, S, C> {
    /// Build the gateway: the backend address must be a URI with a host; its
    /// port defaults to the client's. The resolved target is fixed for the
    /// gateway's lifetime.
    pub fn new(dest: &str, authenticator: A, session_manager: SessionManager<S>, client: C) -> (r:
        Result<AuthRevPrxSvc<A, S, C>, GatewayError>)
        ensures
            match r {
                Ok(svc) => {
                    &&& uri_authority_of(dest@) matches Some(hp) && svc.target.host@ == hp.0
                        && svc.target.port == (match hp.1 {
                        Some(p) => p,
                        None => client.spec_default_port(),
                    })
                    &&& svc.auth == authenticator
                    &&& svc.session_manager == session_manager
                    &&& svc.client == client
                    &&& svc.host_header@ == encode_utf8(svc.target.host@)
                },
                Err(e) => {
                    &&& uri_authority_of(dest@) is None
                    &&& e == GatewayError::InvalidProxyAddress
                },
            },
    {
        let default_port = client.default_port();
        let target = match ProxyTarget::resolve(dest, default_port) {
            Ok(t) => t,
            Err(_) => {
                return Err(GatewayError::InvalidProxyAddress);
            },
        };
        let host_header = target.host.as_str().as_bytes_vec();
        Ok(AuthRevPrxSvc { auth: authenticator, session_manager, client, target, host_header })
    }

    /// Decide one request at the explicit instant `now`, with `fresh_id` as
    /// the id a newly created session would get. An unauthenticated request
    /// is answered 401 on the spot, untouched; an authenticated one comes
    /// back prepared for the backend, with the `Set-Cookie` value to append
    /// when the session is new.
    pub fn call_at(&mut self, req_headers: &mut Headers, now: u64, fresh_id: &str) -> (action:
        ProxyAction)
        ensures
            ({
                let t = rev_proxy_transition(
                    &old(self).auth,
                    old(self).session_manager.contents(),
                    old(self).session_manager.max_age,
                    old(self).session_manager.cookie_name@,
                    old(self).host_header@,
                    old(req_headers)@,
                    now,
                    fresh_id@,
                );
                &&& final(self).session_manager.contents() == t.0
                &&& final(req_headers)@ == t.1
                &&& action_matches(action, t.2)
            }),
            final(self).auth == old(self).auth,
            final(self).client == old(self).client,
            final(self).target == old(self).target,
            final(self).host_header == old(self).host_header,
            final(self).session_manager.cookie_name == old(self).session_manager.cookie_name,
            final(self).session_manager.max_age == old(self).session_manager.max_age,
    {
        let session = headers_has_valid_session_at(req_headers, &mut self.session_manager, now);
        let mut set_cookie: Option<Vec<u8>> = None;
        if session.is_none() {
            if !header_has_valid_auth(req_headers, &self.auth) {
                return ProxyAction::Respond(req_auth());
            }
            self.session_manager.record_session(fresh_id, now);
            let mut value: Vec<u8> = Vec::new();
            push_all(&mut value, self.session_manager.cookie_name.as_str().as_bytes());
            value.push(61);
            push_all(&mut value, fresh_id.as_bytes());
            push_all(&mut value, "; HttpOnly; Max-Age=".as_bytes());
            let age = u64_to_dec(self.session_manager.max_age);
            push_all(&mut value, age.as_slice());
            proof {
                assert(value@ =~= set_cookie_value(
                    old(self).session_manager.cookie_name@,
                    fresh_id@,
                    old(self).session_manager.max_age,
                ));
            }
            set_cookie = Some(value);
        }
        let strip = match req_headers.get("authorization".as_bytes()) {
            Some(v) => bytes_starts_with(v.as_slice(), "Basic ".as_bytes()),
            None => false,
        };
        if strip {
            req_headers.remove_all("authorization".as_bytes());
        }
        let mut host: Vec<u8> = Vec::new();
        push_all(&mut host, self.host_header.as_slice());
        req_headers.replace_first("host".as_bytes(), host);
        ProxyAction::Forward { set_cookie }
    }

    /// Decide one request at the clock's current time, drawing a fresh random
    /// id for the session that valid credentials would create.
    pub fn call(&mut self, req_headers: &mut Headers) -> (action: ProxyAction)
        ensures
            exists|now: u64, fresh_id: Seq<char>|
                {
                    let t = #[trigger] rev_proxy_transition(
                        &old(self).auth,
                        old(self).session_manager.contents(),
                        old(self).session_manager.max_age,
                        old(self).session_manager.cookie_name@,
                        old(self).host_header@,
                        old(req_headers)@,
                        now,
                        fresh_id,
                    );
                    &&& final(self).session_manager.contents() == t.0
                    &&& final(req_headers)@ == t.1
                    &&& action_matches(action, t.2)
                },
            final(self).auth == old(self).auth,
            final(self).client == old(self).client,
            final(self).target == old(self).target,
            final(self).host_header == old(self).host_header,
            final(self).session_manager.cookie_name == old(self).session_manager.cookie_name,
            final(self).session_manager.max_age == old(self).session_manager.max_age,
    {
        let now = unix_now();
        let fresh_id = fresh_session_id();
        self.call_at(req_headers, now, fresh_id.as_str())
    }
}

/// Append the `Set-Cookie` value a fresh session rides back on to a
/// response's headers, preserving whatever `Set-Cookie` entries the backend
/// already sent.
pub fn apply_set_cookie(headers: &mut Headers, value: Vec<u8>)
    ensures
        final(headers)@ == old(headers)@.push((h_set_cookie(), value@)),
{
    headers.append("set-cookie".as_bytes_vec(), value);
}

} // verus!
