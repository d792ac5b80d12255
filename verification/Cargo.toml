[package]
name = "sensor_api"
version = "0.1.0"
edition = "2021"
publish = false

[dependencies]
chrono = "0.4"
serde = { version = "1", features = ["derive"] }
serde_json = "1"
log = "0.4"
env_logger = "*"
dotenv = "0.15"
actix-web = "4"
actix-cors = "*"
sqlx = { version = "*", default-features = false, features = ["mysql", "runtime-tokio", "chrono"] }
