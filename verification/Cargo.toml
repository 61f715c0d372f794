[package]
name = "table_browser"
version = "0.1.0"
edition = "2021"
publish = false

[dependencies]
actix-web = "=4.15.0"
dotenv = "=0.15.0"
env_logger = "=0.11.11"
log = "=0.4.34"
mysql = { version = "=28.0.3", default-features = false, features = ["minimal-rust"] }
serde = { version = "=1.0.229", features = ["derive"] }
serde_json = "=1.0.151"
thiserror = "=2.0.21"
