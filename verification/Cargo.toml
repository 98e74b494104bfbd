[package]
name = "bookclub-api"
version = "0.1.0"
edition = "2021"
publish = false

[dependencies]
actix-cors = "=0.6.5"
actix-web = { version = "=4.18.1", default-features = false, features = ["macros"] }
chrono = { version = "=0.4.45", features = ["serde"] }
dotenv = "=0.15.0"
env_logger = "=0.9.3"
futures = "=0.3.34"
mongodb = { version = "=2.8.2", features = ["bson-chrono-0_4"] }
serde = { version = "=1.0.229", features = ["derive"] }
