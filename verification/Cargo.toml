[package]
name = "lim_backend"
version = "0.1.0"
edition = "2021"
publish = false

[dependencies]
argon2 = { version = "=0.5.3", features = ["std"] }
base64 = "=0.22.1"
chrono = { version = "=0.4.45", features = ["serde"] }
deadpool-postgres = "=0.12.1"
dotenv = "=0.15.0"
postgres-types = { version = "=0.2.14", features = ["derive"] }
rand = "=0.8.8"
redis = { version = "=0.25.5", features = ["tokio-comp"] }
serde = { version = "=1.0.229", features = ["derive"] }
serde_json = "=1.0.154"
thruster = { version = "=1.3.13", features = ["hyper_server"] }
tokio = { version = "=1.54.1", features = ["macros", "rt-multi-thread", "time"] }
tokio-postgres = { version = "=0.7.18", features = ["with-uuid-1", "with-chrono-0_4"] }
tracing = "=0.1.44"
tracing-subscriber = "=0.3.23"
urlencoding = "=2.1.3"
uuid = { version = "=1.29.0", features = ["v4", "serde"] }
