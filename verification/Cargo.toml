[package]
name = "intelligence"
version = "0.1.0"
edition = "2021"
publish = false

[dependencies]
actix-web = { version = "4", default-features = false, features = ["macros"] }
actix-web-httpauth = "0.8"
async-trait = "0.1"
bytes = "1"
dotenv = "0.15"
env_logger = "0.11"
futures-util = "0.3"
jsonwebtoken = { version = "9", default-features = false }
log = "0.4"
serde = { version = "1", features = ["derive"] }
serde_json = "1"
tokio = { version = "1", features = ["fs", "rt-multi-thread", "macros"] }
