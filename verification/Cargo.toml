[package]
name = "settings_resolver"
version = "0.1.0"
edition = "2021"
publish = false

[dependencies]
config = { version = "*", default-features = false, features = ["yaml"] }
sqlx = { version = "*", default-features = false, features = ["postgres", "runtime-tokio"] }
tracing = { version = "*", features = ["log"] }
