[package]
name = "aio_identity"
version = "0.1.0"
edition = "2021"
publish = false

[dependencies]
sha2 = "=0.10.9"
uuid = { version = "=1.29.0", features = ["v4"] }
argon2 = { version = "=0.5.3", features = ["std"] }
anyhow = "=1.0.104"
axum = "=0.8.9"
tokio = { version = "=1.54.1", features = ["rt-multi-thread", "macros", "sync"] }
sqlx = { version = "=0.8.6", default-features = false, features = ["postgres", "runtime-tokio"] }
serde = { version = "=1.0.229", features = ["derive"] }
serde_json = "=1.0.154"
dill = "=0.17.2"
gloo-net = { version = "=0.6.0", default-features = false, features = ["http", "json"] }
web-sys = { version = "=0.3.107", features = ["Window", "Event", "EventTarget"] }
