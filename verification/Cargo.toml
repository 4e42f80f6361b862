[package]
name = "backend_core"
version = "0.1.0"
edition = "2021"
publish = false

[dependencies]
argon2 = { version = "0.5", features = ["std"] }
rand_core = { version = "0.6", features = ["getrandom"] }
uuid = { version = "1", features = ["v4", "serde"] }
time = "0.3"
nanoid = "0.4"
jsonwebtoken = "9"
serde = { version = "1", features = ["derive"] }
serde_derive = "1"
serde_json = "1"
axum = "0.8"
tokio = { version = "1", features = ["rt-multi-thread", "macros", "net"] }
sqlx = { version = "0.8", default-features = false, features = ["postgres", "runtime-tokio", "uuid"] }
redis = { version = "*", features = ["tokio-comp"] }
tower-http = { version = "*", features = ["trace", "request-id"] }
tower_governor = "*"
tracing-subscriber = { version = "*", features = ["env-filter"] }
dotenvy = "*"
clap = { version = "4", features = ["derive"] }
colored = "*"
