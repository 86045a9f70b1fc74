[package]
name = "landz_server"
version = "0.1.0"
edition = "2021"
publish = false

[dependencies]
argon2 = "0.5"
rand = "0.9"
base64 = "0.22"
image = { version = "0.25", default-features = false }
serde = { version = "1", features = ["derive"] }
bincode = "2"
tokio = { version = "1", features = ["full"] }
tracing = "0.1"
tracing-subscriber = { version = "0.3", features = ["env-filter"] }
dotenv = "0.15"
futures = "0.3"
rayon = "1"
axum = "0.8"
sqlx = { version = "0.8", default-features = false, features = ["postgres", "runtime-tokio"] }
