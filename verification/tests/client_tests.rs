use auth_gateway::client::{
    HttpClient, HttpEngine, HttpVersion, HttpsClient, ProxyClient, ProxyClientError, ProxyTarget,
};
use auth_gateway::config::{SessionConfig, StorageKind};
use auth_gateway::text::u64_to_dec;

#[test]
fn default_ports_by_scheme() {
    assert_eq!(HttpClient.default_port(), 80);
    assert_eq!(HttpsClient.default_port(), 443);
}

#[test]
fn https_engine_follows_declared_version() {
    assert_eq!(HttpsClient.engine_for(HttpVersion::Http10), Ok(HttpEngine::Http1));
    assert_eq!(HttpsClient.engine_for(HttpVersion::Http11), Ok(HttpEngine::Http1));
    assert_eq!(HttpsClient.engine_for(HttpVersion::Http2), Ok(HttpEngine::Http2));
}

#[test]
fn unsupported_version_is_an_explicit_error() {
    assert_eq!(
        HttpsClient.engine_for(HttpVersion::Http09),
        Err(ProxyClientError::NotSupportHttpVersion(HttpVersion::Http09))
    );
    assert_eq!(
        HttpsClient.engine_for(HttpVersion::Http3),
        Err(ProxyClientError::NotSupportHttpVersion(HttpVersion::Http3))
    );
}

#[test]
fn plain_client_always_speaks_http1() {
    assert_eq!(HttpClient.engine_for(HttpVersion::Http3), Ok(HttpEngine::Http1));
    assert_eq!(HttpClient.engine_for(HttpVersion::Http11), Ok(HttpEngine::Http1));
}

#[test]
fn proxy_target_resolution() {
    let t = ProxyTarget::resolve("http://host.example:9000", 80).ok().unwrap();
    assert_eq!(t.host, "host.example");
    assert_eq!(t.port, 9000);
    let t = ProxyTarget::resolve("http://host.example", 80).ok().unwrap();
    assert_eq!(t.port, 80);
    assert!(ProxyTarget::resolve("/relative/path", 80).is_err());
}

#[test]
fn decimal_rendering_is_exact() {
    assert_eq!(u64_to_dec(0), b"0".to_vec());
    assert_eq!(u64_to_dec(7), b"7".to_vec());
    assert_eq!(u64_to_dec(3600), b"3600".to_vec());
    assert_eq!(u64_to_dec(18446744073709551615), b"18446744073709551615".to_vec());
}

#[test]
fn storage_kind_is_exact() {
    let cfg = |s: &str| SessionConfig {
        cookie_name: "sid".to_string(),
        session_expire: 3600,
        storage: s.to_string(),
        redis_conn: None,
    };
    assert_eq!(cfg("memory").storage_kind(), Some(StorageKind::Memory));
    assert_eq!(cfg("redis").storage_kind(), Some(StorageKind::Redis));
    assert_eq!(cfg("Memory").storage_kind(), None);
    assert_eq!(cfg("disk").storage_kind(), None);
}
