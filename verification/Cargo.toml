[package]
name = "blog"
version = "0.1.0"
edition = "2021"
publish = false

[dependencies]
axum = "*"
clap = { version = "*", features = ["derive", "env"] }
sqlx = { version = "*", default-features = false, features = ["runtime-tokio", "sqlite", "migrate"] }
thiserror = "*"
tokio = { version = "*", features = ["macros", "net", "rt-multi-thread"] }
tracing-subscriber = "*"
