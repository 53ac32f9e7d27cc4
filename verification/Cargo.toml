[package]
name = "tetronix"
version = "0.1.0"
edition = "2021"
publish = false

[dependencies]
hmac = "=0.12.1"
sha2 = "=0.10.9"
uuid = { version = "=1.29.0", features = ["v4"] }
serde = { version = "=1.0.229", features = ["derive"] }
serde_json = "=1.0.154"
thiserror = "=2.0.21"
actix-web = { version = "=4.18.1", default-features = false, features = ["macros", "cookies"] }
actix-ws = "=0.4.0"
actix-web-prom = "=0.10.0"
prometheus = "=0.14.0"
futures-util = "=0.3.34"
sqlx = { version = "=0.9.0", default-features = false, features = ["postgres", "runtime-tokio", "macros", "json"] }
reqwest = { version = "=0.13.5", default-features = false, features = ["json", "form", "rustls"] }
tokio = { version = "=1.54.1", features = ["time", "rt", "macros"] }
dotenv = "=0.15.0"
env_logger = "=0.11.11"
systemstat = "=0.2.7"
