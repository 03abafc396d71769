[package]
name = "risk_auth"
version = "0.1.0"
edition = "2021"
publish = false

[dependencies]
serde_json = "=1.0.154"
hmac = "=0.12.1"
sha2 = "=0.10.9"
chrono = "=0.4.45"
urlencoding = "=1.3.3"
rocket = { version = "=0.5.2", features = ["json", "secrets"] }
rocket_oauth2 = "=0.5.0"
rocket_sync_db_pools = { version = "=0.1.0", features = ["diesel_postgres_pool"] }
reqwest = { version = "=0.11.27", default-features = false, features = ["json", "rustls-tls"] }
diesel = { version = "=2.3.14", features = ["postgres", "serde_json"] }
diesel-citext = "=0.3.0"
dotenv = "=0.15.0"
time = "=0.3.55"
serde = { version = "=1.0.229", features = ["derive"] }
