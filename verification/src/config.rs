//! The configuration values the gateway core consumes. Reading and parsing
//! the configuration file is the transport layer's business; the core takes
//! the plain values and owns only one rule: which session storage backend a
//! configuration names.

use vstd::prelude::*;
use vstd::string::StrSliceExecFns;
use vstd::utf8::encode_utf8;

use crate::text::bytes_eq;

verus! {

pub struct Config {
    pub listen_address: String,
    pub listen_port: u16,
    pub auth_return_header_name: Option<String>,
    pub debug: bool,
    pub reverse_proxy: ReverseProxyConfig,
    pub https: HttpsConfig,
    pub session: SessionConfig,
}

pub struct ReverseProxyConfig {
    pub enabled: bool,
    pub proxy_address: Option<String>,
}

pub struct SessionConfig {
    pub cookie_name: String,
    pub session_expire: u64,
    pub storage: String,
    pub redis_conn: Option<String>,
}

pub struct HttpsConfig {
    pub enabled: bool,
    pub cert: Option<String>,
    pub key: Option<String>,
}

/// The closed set of session storage backends.
#[derive(Clone, Copy, Debug, PartialEq, Eq, Structural)]
pub enum StorageKind {
    Memory,
    Redis,
}

impl SessionConfig {
    /// Which backend the configuration names: exactly `"memory"` or
    /// `"redis"`; anything else is a fatal configuration error.
    pub fn storage_kind(&self) -> (r: Option<StorageKind>)
        ensures
            r == Some(StorageKind::Memory) <==> self.storage@ == "memory"@,
            r == Some(StorageKind::Redis) <==> self.storage@ == "redis"@,
            r is None <==> (self.storage@ != "memory"@ && self.storage@ != "redis"@),
    {
        proof {
            reveal_strlit("memory");
            reveal_strlit("redis");
            vstd::utf8::encode_utf8_decode_utf8(self.storage@);
            vstd::utf8::encode_utf8_decode_utf8("memory"@);
            vstd::utf8::encode_utf8_decode_utf8("redis"@);
        }
        if bytes_eq(self.storage.as_str().as_bytes(), "memory".as_bytes()) {
            Some(StorageKind::Memory)
        } else if bytes_eq(self.storage.as_str().as_bytes(), "redis".as_bytes()) {
            Some(StorageKind::Redis)
        } else {
            None
        }
    }
}

} // verus!
