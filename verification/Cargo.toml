[package]
name = "webfinger_rs"
version = "0.1.0"
edition = "2021"
publish = false

[dependencies]
fluent-uri = "*"
http = "*"
serde = { version = "*", features = ["derive"] }
serde_json = "*"
axum = "*"
axum-extra = { version = "*", features = ["query"] }
clap = { version = "*", features = ["derive"] }
tokio = { version = "*", features = ["macros", "rt-multi-thread", "net"] }
