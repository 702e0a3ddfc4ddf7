[package]
name = "e_transfer"
version = "0.1.0"
edition = "2021"
publish = false

[dependencies]
actix-session = { version = "0.8", features = ["cookie-session"] }
actix-web = "4"
anyhow = "1"
argon2 = { version = "0.5", features = ["std"] }
base64 = "0.21"
chrono = { version = "0.4", features = ["serde"] }
config = { version = "0.13", default-features = false, features = ["json"] }
email_address = "0.2"
futures = "0.3"
rand = "0.8"
reqwest = { version = "0.11", default-features = false, features = ["json", "rustls-tls"] }
serde = { version = "1", features = ["derive"] }
serde_json = "1"
serde_path_to_error = "0.1"
thiserror = "1"
tokio = { version = "1", features = ["rt-multi-thread", "macros"] }
tokio-postgres = { version = "0.7", features = ["with-uuid-1", "with-chrono-0_4", "with-serde_json-1"] }
tracing = "0.1"
tracing-actix-web = "0.7"
truelayer-signing = "*"
uuid = { version = "1", features = ["v4", "serde"] }
