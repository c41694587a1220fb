[package]
name = "arcadia"
version = "0.1.0"
edition = "2021"
publish = false

[dependencies]
rand = "0.8.5"
uuid = "1"
serde = { version = "1", features = ["derive"] }
serde_json = "1"
serde_yaml = "0.9"
log = "0.4"
sqlx = { version = "0.7", default-features = false, features = ["postgres", "runtime-tokio", "uuid"] }
tokio = { version = "1", features = ["rt-multi-thread", "macros"] }
