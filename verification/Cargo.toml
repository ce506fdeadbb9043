[package]
name = "sage_wiki_bridge"
version = "0.4.1"
edition = "2021"
publish = false

[dependencies]
aes = "0.8"
axum = "0.8"
base64 = "0.22"
cbc = { version = "0.1", features = ["alloc"] }
constant_time_eq = "0.3"
dotenvy = "0.15"
quick-xml = { version = "0.37", features = ["serialize"] }
reqwest = { version = "0.12", default-features = false, features = ["json", "rustls-tls"] }
serde = { version = "1", features = ["derive"] }
serde_json = "1"
sha1 = "0.10"
sha2 = "0.10"
sqlx = { version = "0.8", default-features = false, features = ["runtime-tokio", "sqlite", "macros", "migrate"] }
thiserror = "2"
time = { version = "0.3", features = ["formatting", "parsing"] }
tokio = { version = "1", features = ["full"] }
tracing = "0.1"
tracing-subscriber = { version = "0.3", features = ["env-filter", "json"] }
url = "2"
