[package]
name = "axum_oauth"
version = "0.1.0"
edition = "2021"
publish = false

[dependencies]
actix-web = { version = "4", features = ["secure-cookies"] }
actix-session = "0.10"
actix-files = "0.6"
anyhow = "1"
argon2 = "0.5"
async-session = "3"
futures = "0.3"
mime = "0.3"
nanoid = "0.4"
oxide-auth = "*"
oxide-auth-actix = "*"
secrecy = "0.8"
serde = { version = "1", features = ["derive"] }
serde_json = "1"
serde_path_to_error = "0.1"
serde_urlencoded = "0.7"
tokio = { version = "1", features = ["macros", "rt-multi-thread"] }
tracing = "0.1"
tracing-subscriber = { version = "0.3", features = ["env-filter"] }
