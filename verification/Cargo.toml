[package]
name = "acorn_backend"
version = "0.1.0"
edition = "2021"
publish = false

[dependencies]
base64 = "=0.22.1"
chrono = "=0.4.45"
rand = "=0.9.5"
uuid = { version = "=1.29.0", features = ["v4"] }
dotenvy = "=0.15.7"
dropbox-sdk = { version = "=0.19.1", default-features = false, features = ["default_async_client", "dbx_files"] }
log = "=0.4.34"
once_cell = "=1.21.4"
reqwest = { version = "=0.12.28", default-features = false, features = ["json", "rustls-tls"] }
rocket = { version = "=0.5.2", features = ["json"] }
rocket_dyn_templates = { version = "=0.2.0", features = ["tera"] }
rocket-multipart-form-data = "=0.10.7"
serde = { version = "=1.0.229", features = ["derive"] }
serde_json = "=1.0.154"
sqlx = { version = "=0.8.6", default-features = false, features = ["runtime-tokio", "postgres", "chrono", "uuid"] }
tokio = { version = "=1.54.1", features = ["io-util"] }
tokio-util = { version = "=0.7.20", features = ["compat"] }

[dev-dependencies]
regex = "=1.13.1"
