[package]
name = "authcore"
version = "0.1.0"
edition = "2021"
publish = false

[dependencies]
argon2 = { version = "=0.5.3", features = ["std"] }
axum = "=0.8.9"
chrono = "=0.4.45"
jsonwebtoken = { version = "=11.1.0", features = ["rust_crypto"] }
rand_core = { version = "=0.6.4", features = ["std"] }
serde = { version = "=1.0.229", features = ["derive"] }
serde_json = "=1.0.151"
sqlx = { version = "=0.9.0", default-features = false, features = ["runtime-tokio", "postgres", "chrono", "uuid", "migrate"] }
tokio = { version = "=1.53.2", features = ["rt-multi-thread", "macros", "net"] }
tracing = "=0.1.44"
uuid = { version = "=1.27.0", features = ["v4"] }
