use auth_gateway::auth::HtpasswdAuth;
use auth_gateway::auth_only::AuthOnlySvc;
use auth_gateway::client::{HttpClient, HttpsClient};
use auth_gateway::headers::Headers;
use auth_gateway::reverse_proxy::{apply_set_cookie, AuthRevPrxSvc, ProxyAction};
use auth_gateway::service::GatewayError;
use auth_gateway::session::{MemoryStore, SessionManager};
use auth_gateway::utils::{
    get_session_from_cookie, header_has_valid_auth, headers_has_valid_session_at, ok_empty,
    req_auth,
};
use base64::prelude::BASE64_STANDARD;
use base64::Engine;

const NOW: u64 = 1_700_000_000;

fn alice_auth() -> HtpasswdAuth {
    let hash = bcrypt::hash("secret", 4).unwrap();
    HtpasswdAuth::new(&vec![format!("alice:{}", hash)])
}

fn manager() -> SessionManager<MemoryStore> {
    SessionManager::new("sid".to_string(), MemoryStore::new(), 3600)
}

fn basic_header(user: &str, password: &str) -> Vec<u8> {
    let mut header = b"Basic ".to_vec();
    let encoded = BASE64_STANDARD.encode(format!("{}:{}", user, password));
    header.extend_from_slice(encoded.as_bytes());
    header
}

#[test]
fn cookie_extraction_follows_the_grammar() {
    assert_eq!(get_session_from_cookie(b"sid", b"sid=abc"), Some(&b"abc"[..]));
    assert_eq!(get_session_from_cookie(b"sid", b"theme=dark; sid=abc"), Some(&b"abc"[..]));
    assert_eq!(get_session_from_cookie(b"sid", b"theme=dark;sid=abc"), Some(&b"abc"[..]));
    assert_eq!(get_session_from_cookie(b"sid", b"sid=abc; theme=dark"), Some(&b"abc"[..]));
    // a cookie whose name merely starts with the wanted name does not match
    assert_eq!(get_session_from_cookie(b"sid", b"sidebar=1"), None);
    assert_eq!(get_session_from_cookie(b"sid", b"theme=dark"), None);
    assert_eq!(get_session_from_cookie(b"sid", b""), None);
    assert_eq!(get_session_from_cookie(b"sid", b"sid"), None);
    // the value may be empty, and only one leading space is trimmed
    assert_eq!(get_session_from_cookie(b"sid", b"theme=dark; sid="), Some(&b""[..]));
    assert_eq!(get_session_from_cookie(b"sid", b"theme=dark;  sid=abc"), None);
}

#[test]
fn canned_responses_have_their_shape() {
    let r = req_auth();
    assert_eq!(r.status, 401);
    assert_eq!(
        r.headers.get(b"www-authenticate").map(|v| v.as_slice()),
        Some(&b"Basic realm=\"Restricted\""[..])
    );
    let ok = ok_empty();
    assert_eq!(ok.status, 200);
    assert_eq!(ok.headers.get(b"www-authenticate"), None);
}

#[test]
fn session_probe_sees_valid_cookie() {
    let mut mgr = manager();
    mgr.record_session("abc", NOW);
    let mut headers = Headers::new();
    headers.append(b"cookie".to_vec(), b"theme=dark; sid=abc".to_vec());
    let found = headers_has_valid_session_at(&headers, &mut mgr, NOW + 10);
    assert_eq!(found, Some("abc".to_string()));
}

#[test]
fn auth_header_check_goes_through_the_table() {
    let auth = alice_auth();
    let mut headers = Headers::new();
    headers.append(b"authorization".to_vec(), basic_header("alice", "secret"));
    assert!(header_has_valid_auth(&headers, &auth));
    let empty = Headers::new();
    assert!(!header_has_valid_auth(&empty, &auth));
}

#[test]
fn auth_only_rejects_invalid_header_name() {
    let svc = AuthOnlySvc::new(alice_auth(), "bad name", manager());
    assert!(matches!(svc, Err(GatewayError::InvalidHeaderName)));
    let svc = AuthOnlySvc::new(alice_auth(), "", manager());
    assert!(matches!(svc, Err(GatewayError::InvalidHeaderName)));
}

#[test]
fn auth_only_valid_session_cookie_gets_bare_200() {
    let mut svc = AuthOnlySvc::new(alice_auth(), "X-Auth-Session", manager()).ok().unwrap();
    svc.session_manager.record_session("abc", NOW);
    let mut headers = Headers::new();
    headers.append(b"cookie".to_vec(), b"sid=abc".to_vec());
    let resp = svc.call_at(&headers, NOW + 5, "fresh-id");
    assert_eq!(resp.status, 200);
    assert_eq!(resp.headers.get(b"x-auth-session"), None);
}

#[test]
fn auth_only_credentials_get_200_with_return_header() {
    let mut svc = AuthOnlySvc::new(alice_auth(), "X-Auth-Session", manager()).ok().unwrap();
    let mut headers = Headers::new();
    headers.append(b"authorization".to_vec(), basic_header("alice", "secret"));
    let resp = svc.call_at(&headers, NOW, "fresh-id");
    assert_eq!(resp.status, 200);
    assert_eq!(
        resp.headers.get(b"x-auth-session").map(|v| v.as_slice()),
        Some(&b"sid=fresh-id"[..])
    );
    // the new session is recorded and valid
    assert!(svc.session_manager.is_session_valid_at("fresh-id", NOW + 1));
}

#[test]
fn auth_only_anonymous_gets_401_challenge() {
    let mut svc = AuthOnlySvc::new(alice_auth(), "X-Auth-Session", manager()).ok().unwrap();
    let headers = Headers::new();
    let resp = svc.call_at(&headers, NOW, "fresh-id");
    assert_eq!(resp.status, 401);
    assert_eq!(
        resp.headers.get(b"www-authenticate").map(|v| v.as_slice()),
        Some(&b"Basic realm=\"Restricted\""[..])
    );
}

#[test]
fn reverse_proxy_rejects_bad_backend_address() {
    let svc = AuthRevPrxSvc::new("/no-host", alice_auth(), manager(), HttpClient);
    assert!(matches!(svc, Err(GatewayError::InvalidProxyAddress)));
}

#[test]
fn reverse_proxy_resolves_ports() {
    let svc = AuthRevPrxSvc::new("http://backend.example", alice_auth(), manager(), HttpClient)
        .ok()
        .unwrap();
    assert_eq!(svc.target.host, "backend.example");
    assert_eq!(svc.target.port, 80);
    let svc = AuthRevPrxSvc::new("https://backend.example", alice_auth(), manager(), HttpsClient)
        .ok()
        .unwrap();
    assert_eq!(svc.target.port, 443);
    let svc =
        AuthRevPrxSvc::new("http://backend.example:8080", alice_auth(), manager(), HttpClient)
            .ok()
            .unwrap();
    assert_eq!(svc.target.port, 8080);
}

#[test]
fn reverse_proxy_prepares_request_and_issues_cookie() {
    let mut svc =
        AuthRevPrxSvc::new("http://backend.example:8080", alice_auth(), manager(), HttpClient)
            .ok()
            .unwrap();
    let mut headers = Headers::new();
    headers.append(b"host".to_vec(), b"public.example".to_vec());
    headers.append(b"authorization".to_vec(), basic_header("alice", "secret"));
    let action = svc.call_at(&mut headers, NOW, "fresh-id");
    // the backend sees no credentials and the configured host
    assert_eq!(headers.get(b"authorization"), None);
    assert_eq!(headers.get(b"host").map(|v| v.as_slice()), Some(&b"backend.example"[..]));
    // the client response gets the full Set-Cookie value appended
    match action {
        ProxyAction::Forward { set_cookie: Some(value) } => {
            assert_eq!(value.as_slice(), &b"sid=fresh-id; HttpOnly; Max-Age=3600"[..]);
            let mut resp = ok_empty();
            resp.headers.append(b"set-cookie".to_vec(), b"theirs=1".to_vec());
            apply_set_cookie(&mut resp.headers, value);
            // the backend's own Set-Cookie survives, ours is appended
            assert_eq!(resp.headers.get(b"set-cookie").map(|v| v.as_slice()), Some(&b"theirs=1"[..]));
        },
        _ => panic!("expected a forward with a fresh cookie"),
    }
    assert!(svc.session_manager.is_session_valid_at("fresh-id", NOW + 1));
}

#[test]
fn reverse_proxy_existing_session_forwards_without_cookie() {
    let mut svc =
        AuthRevPrxSvc::new("http://backend.example", alice_auth(), manager(), HttpClient)
            .ok()
            .unwrap();
    svc.session_manager.record_session("abc", NOW);
    let mut headers = Headers::new();
    headers.append(b"host".to_vec(), b"public.example".to_vec());
    headers.append(b"cookie".to_vec(), b"sid=abc".to_vec());
    let action = svc.call_at(&mut headers, NOW + 5, "fresh-id");
    assert!(matches!(action, ProxyAction::Forward { set_cookie: None }));
    assert_eq!(headers.get(b"host").map(|v| v.as_slice()), Some(&b"backend.example"[..]));
}

#[test]
fn reverse_proxy_anonymous_gets_401_untouched() {
    let mut svc =
        AuthRevPrxSvc::new("http://backend.example", alice_auth(), manager(), HttpClient)
            .ok()
            .unwrap();
    let mut headers = Headers::new();
    headers.append(b"host".to_vec(), b"public.example".to_vec());
    let action = svc.call_at(&mut headers, NOW, "fresh-id");
    match action {
        ProxyAction::Respond(resp) => {
            assert_eq!(resp.status, 401);
            assert_eq!(
                resp.headers.get(b"www-authenticate").map(|v| v.as_slice()),
                Some(&b"Basic realm=\"Restricted\""[..])
            );
        },
        _ => panic!("expected an immediate 401"),
    }
    // the request was not rewritten
    assert_eq!(headers.get(b"host").map(|v| v.as_slice()), Some(&b"public.example"[..]));
}

#[test]
fn non_basic_authorization_is_forwarded_unstripped() {
    let mut svc =
        AuthRevPrxSvc::new("http://backend.example", alice_auth(), manager(), HttpClient)
            .ok()
            .unwrap();
    svc.session_manager.record_session("abc", NOW);
    let mut headers = Headers::new();
    headers.append(b"cookie".to_vec(), b"sid=abc".to_vec());
    headers.append(b"authorization".to_vec(), b"Bearer token".to_vec());
    let action = svc.call_at(&mut headers, NOW, "fresh-id");
    assert!(matches!(action, ProxyAction::Forward { set_cookie: None }));
    assert_eq!(headers.get(b"authorization").map(|v| v.as_slice()), Some(&b"Bearer token"[..]));
}
