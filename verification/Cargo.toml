[package]
name = "auth_gateway"
version = "0.1.0"
edition = "2021"
publish = false

[dependencies]
argh = "*"
async-trait = "*"
base64 = "*"
bcrypt = "*"
dashmap = "*"
http-body-util = "*"
hyper = { version = "*", features = ["full"] }
hyper-rustls = "*"
hyper-util = { version = "*", features = ["full"] }
r2d2 = "*"
redis = "*"
rustls = "*"
rustls-pemfile = "*"
rustls-pki-types = "*"
serde = { version = "*", features = ["derive"] }
thiserror = "*"
tokio = { version = "*", features = ["full"] }
tokio-rustls = "*"
toml = "*"
tracing = "*"
tracing-subscriber = "*"
uuid = { version = "*", features = ["v4"] }
