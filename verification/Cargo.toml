[package]
name = "rs-gate-server"
version = "0.1.0"
edition = "2021"
publish = false

[dependencies]
bcrypt = "=0.19.3"
num_cpus = "=1.17.0"
chrono = "=0.4.45"
axum = "=0.8.9"
tokio = { version = "=1.54.1", features = ["macros", "rt-multi-thread", "net"] }
serde = { version = "=1.0.229", features = ["derive"] }
config = { version = "=0.15.27", default-features = false, features = ["yaml"] }
sea-orm = { version = "=1.1.20", default-features = false, features = ["sqlx-postgres", "runtime-tokio-rustls", "with-chrono", "macros"] }
thiserror = "=2.0.21"
tracing = "=0.1.44"
idgenerator = "=2.0.0"
validator = "=0.21.0"
jsonwebtoken = "9"
tracing-subscriber = "0.3"
