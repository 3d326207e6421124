[package]
name = "laraxum"
version = "0.1.0"
edition = "2021"
publish = false

[dependencies]
mime = "=0.3.17"
jsonwebtoken = { version = "=11.1.0", default-features = false, features = ["rust_crypto"] }
serde = { version = "=1.0.229", features = ["derive"] }
serde_json = { version = "=1.0.154", features = ["raw_value"] }
axum = "=0.8.9"
axum-extra = { version = "=0.12.6", features = ["typed-header"] }
bytes = "=1.12.1"
syn = { version = "=2.0.119", features = ["full", "extra-traits"] }
quote = "=1.0.47"
proc-macro2 = "=1.0.107"
darling = "=0.21.3"
thiserror = "=2.0.21"
tokio = { version = "=1.54.1", features = ["net", "rt", "macros"] }
