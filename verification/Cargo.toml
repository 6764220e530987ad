[package]
name = "patron"
version = "0.1.0"
edition = "2021"
publish = false

[dependencies]
chrono = { version = "=0.4.45", default-features = false, features = ["clock", "std", "serde"] }
uuid = { version = "=1.29.0", features = ["v4", "serde"] }
hmac = "=0.12.1"
sha2 = "=0.10.9"
hex = "=0.4.3"
base64 = "=0.22.1"
p256 = { version = "=0.13.2", features = ["ecdsa"] }
serde = { version = "=1.0.229", features = ["derive"] }
serde_json = "=1.0.154"
reqwest = { version = "=0.12.28", default-features = false, features = ["json", "rustls-tls"] }
actix-web = { version = "=4.18.1", default-features = false, features = ["macros", "cookies"] }
actix-cors = "=0.7.2"
actix-session = { version = "=0.10.1", features = ["redis-session"] }
redis = { version = "=0.27.6", default-features = false, features = ["tokio-comp", "connection-manager"] }
diesel = { version = "=2.2.12", default-features = false, features = ["postgres_backend", "chrono", "uuid", "32-column-tables"] }
diesel-async = { version = "=0.5.2", features = ["postgres", "deadpool"] }
tokio = { version = "=1.54.1", features = ["rt-multi-thread", "macros"] }
dotenvy = "=0.15.7"
tracing = "=0.1.44"
tracing-subscriber = { version = "=0.3.23", features = ["env-filter"] }
tracing-actix-web = "=0.7.25"
utoipa = { version = "=5.5.0", features = ["uuid", "chrono"] }
utoipa-redoc = { version = "=6.0.0", features = ["actix-web"] }
