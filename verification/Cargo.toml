[package]
name = "bolt_crud"
version = "0.1.0"
edition = "2021"
publish = false

[dependencies]
actix-web = { version = "=4.18.1", default-features = false, features = ["macros"] }
bolt-client = { version = "=0.11.0", features = ["tokio-stream"] }
bolt-proto = "=0.12.0"
dotenv = "=0.15.0"
futures = "=0.3.34"
log = "=0.4.34"
pretty_env_logger = "=0.5.0"
serde = { version = "=1.0.229", features = ["derive"] }
tokio = { version = "=1.54.1", features = ["io-util", "net", "rt", "macros", "sync"] }
tokio-util = { version = "=0.7.20", features = ["compat"] }
