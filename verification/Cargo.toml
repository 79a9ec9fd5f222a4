[package]
name = "user_service"
version = "0.1.0"
edition = "2021"
publish = false

[dependencies]
actix-web = { version = "4", default-features = false, features = ["macros"] }
sqlx = { version = "0.8", default-features = false, features = ["mysql", "runtime-tokio"] }
serde = { version = "1", features = ["derive"] }
dotenv = "0.15"
env_logger = "0.11"
log = "0.4"
