[package]
name = "shared_tier_list"
version = "0.1.0"
edition = "2021"
publish = false

[dependencies]
argon2 = "0.5"
axum = { version = "0.8", features = ["ws"] }
axum-core = "0.5"
axum-extra = { version = "0.10", features = ["typed-header"] }
chrono = "0.4"
dotenv = "0.15"
futures-util = "0.3"
headers = "0.4"
http = "1"
jsonwebtoken = "9"
mongodb = "3"
password-hash = { version = "0.5", features = ["getrandom"] }
serde = { version = "1", features = ["derive"] }
serde_json = "1"
sha2 = "0.10"
thiserror = "1"
tokio = { version = "1", features = ["full"] }
tower-http = { version = "0.6", features = ["cors"] }
tracing = "0.1"
tracing-subscriber = { version = "0.3", features = ["env-filter"] }
