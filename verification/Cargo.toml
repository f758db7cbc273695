[package]
name = "fardtjanst"
version = "0.1.0"
edition = "2021"
publish = false

[dependencies]
chrono = "=0.4.45"
bcrypt = "=0.15.1"
serde = { version = "=1.0.229", features = ["derive"] }
serde_json = "=1.0.154"
serde_urlencoded = "=0.7.1"
rand = "=0.8.8"
actix-web = { version = "=4.18.1", default-features = false, features = ["macros", "cookies"] }
actix-rt = "=2.15.0"
actix-session = { version = "=0.9.0", features = ["cookie-session"] }
sea-orm = { version = "=0.12.15", default-features = false, features = ["sqlx-sqlite", "runtime-tokio-rustls", "macros"] }
futures = "=0.3.34"
log = "=0.4.35"
pretty_env_logger = "=0.5.0"
reqwest = { version = "0.11", default-features = false, features = ["json"] }
web-push = { version = "0.10", default-features = false, features = ["hyper-client"] }
