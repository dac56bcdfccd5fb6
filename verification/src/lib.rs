//! Core of an HTTP Basic-authentication gateway: a credential table checked
//! with bcrypt, cookie-backed sessions with absolute expiry, and the
//! per-request decision engine for the two gateway variants (auth-only
//! sub-request service and authenticating reverse proxy).

pub mod auth;
pub mod auth_only;
pub mod client;
pub mod config;
pub mod headers;
pub mod reverse_proxy;
pub mod service;
pub mod session;
pub mod shared_map;
pub mod text;
pub mod utils;
