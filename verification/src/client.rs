//! The forwarding side the reverse proxy decides over: which HTTP engine a
//! client uses for a declared request version, the default port of each
//! client kind, and the backend target resolved from the configured address.
//! The transport layer opens the connections; everything it needs to decide
//! is computed and proved here.

use vstd::prelude::*;

verus! {

/// The HTTP protocol version a request declares.
#[derive(Clone, Copy, Debug, PartialEq, Eq, Structural)]
pub enum HttpVersion {
    Http09,
    Http10,
    Http11,
    Http2,
    Http3,
}

/// The client engine that drives one forwarded exchange.
#[derive(Clone, Copy, Debug, PartialEq, Eq, Structural)]
pub enum HttpEngine {
    Http1,
    Http2,
}

/// Why a forwarded exchange failed.
#[derive(Clone, Copy, Debug, PartialEq, Eq, Structural)]
pub enum ProxyClientError {
    /// The connection could not be opened or broke.
    Io,
    /// The HTTP exchange itself failed.
    Hyper,
    /// The request declared a version the client does not speak.
    NotSupportHttpVersion(HttpVersion),
}

/// A forwarding client's fixed policy: its default port and the engine it
/// picks for a declared request version.
pub trait ProxyClient {
    spec fn spec_default_port(&self) -> u16;

    spec fn spec_engine_for(&self, version: HttpVersion) -> Result<HttpEngine, ProxyClientError>;

    /// The port used when the configured backend address names none.
    fn default_port(&self) -> (p: u16)
        ensures
            p == self.spec_default_port(),
    ;

    /// The engine for one forwarded request, or the error the exchange fails
    /// with before anything is sent.
    fn engine_for(&self, version: HttpVersion) -> (r: Result<HttpEngine, ProxyClientError>)
        ensures
            r == self.spec_engine_for(version),
    ;
}

/// The plain client: one HTTP/1.1 connection per forwarded request, port 80.
pub struct HttpClient;

impl ProxyClient for HttpClient {
    open spec fn spec_default_port(&self) -> u16 {
        80
    }

    open spec fn spec_engine_for(&self, version: HttpVersion) -> Result<
        HttpEngine,
        ProxyClientError,
    > {
        Ok(HttpEngine::Http1)
    }

    fn default_port(&self) -> (p: u16) {
        80
    }

    fn engine_for(&self, version: HttpVersion) -> (r: Result<HttpEngine, ProxyClientError>) {
        Ok(HttpEngine::Http1)
    }
}

/// The TLS client: port 443; the engine follows the request's declared
/// version — HTTP/1.0 and 1.1 over a single stream, HTTP/2 multiplexed —
/// and any other version is an unsupported-version error.
pub struct HttpsClient;

impl ProxyClient for HttpsClient {
    open spec fn spec_default_port(&self) -> u16 {
        443
    }

    open spec fn spec_engine_for(&self, version: HttpVersion) -> Result<
        HttpEngine,
        ProxyClientError,
    > {
        match version {
            HttpVersion::Http10 => Ok(HttpEngine::Http1),
            HttpVersion::Http11 => Ok(HttpEngine::Http1),
            HttpVersion::Http2 => Ok(HttpEngine::Http2),
            _ => Err(ProxyClientError::NotSupportHttpVersion(version)),
        }
    }

    fn default_port(&self) -> (p: u16) {
        443
    }

    fn engine_for(&self, version: HttpVersion) -> (r: Result<HttpEngine, ProxyClientError>) {
        match version {
            HttpVersion::Http10 => Ok(HttpEngine::Http1),
            HttpVersion::Http11 => Ok(HttpEngine::Http1),
            HttpVersion::Http2 => Ok(HttpEngine::Http2),
            _ => Err(ProxyClientError::NotSupportHttpVersion(version)),
        }
    }
}

/// A declared version outside 1.0, 1.1 and 2 never gets an engine from the
/// TLS client: it yields exactly the unsupported-version error.
pub proof fn lemma_unsupported_version_rejected(client: HttpsClient, version: HttpVersion)
    requires
        version != HttpVersion::Http10,
        version != HttpVersion::Http11,
        version != HttpVersion::Http2,
    ensures
        client.spec_engine_for(version) == Err::<HttpEngine, ProxyClientError>(
            ProxyClientError::NotSupportHttpVersion(version),
        ),
{
}

/// What `hyper::Uri`'s parser extracts from an address string: the host and
/// the explicit port, when the string parses as a URI with a host at all —
/// a function of the string alone.
pub uninterp spec fn uri_authority_of(s: Seq<char>) -> Option<(Seq<char>, Option<u16>)>;

/// Relies on `hyper::Uri` (the `http` crate's URI type): `parse`, `host` and
/// `port_u16` extract the authority deterministically from the string.
#[verifier::external_body]
fn parse_uri_authority(dest: &str) -> (r: Option<(String, Option<u16>)>)
    ensures
        match r {
            Some(hp) => uri_authority_of(dest@) == Some((hp.0@, hp.1)),
            None => uri_authority_of(dest@) is None,
        },
{
    let uri: hyper::Uri = match dest.parse() {
        Ok(u) => u,
        Err(_) => {
            return None;
        },
    };
    let host = match uri.host() {
        Some(h) => h.to_string(),
        None => {
            return None;
        },
    };
    Some((host, uri.port_u16()))
}

/// The fixed backend a reverse proxy forwards to: the host name (for the TLS
/// identity and the Host-header rewrite) and the port. Resolved once at
/// construction; the transport layer turns it into a socket address.
pub struct ProxyTarget {
    pub host: String,
    pub port: u16,
}

impl ProxyTarget {
    /// Resolve the configured backend address: its host, and its explicit
    /// port or the client's default. An address that does not parse as a URI
    /// with a host is a construction-time error.
    pub fn resolve(dest: &str, default_port: u16) -> (r: Result<ProxyTarget, ()>)
        ensures
            match r {
                Ok(t) => uri_authority_of(dest@) matches Some(hp) && t.host@ == hp.0 && t.port == (
                match hp.1 {
                    Some(p) => p,
                    None => default_port,
                }),
                Err(_) => uri_authority_of(dest@) is None,
            },
    {
        match parse_uri_authority(dest) {
            Some((host, port)) => {
                let port = match port {
                    Some(p) => p,
                    None => default_port,
                };
                Ok(ProxyTarget { host, port })
            },
            None => Err(()),
        }
    }
}

} // verus!
