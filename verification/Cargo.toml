[package]
name = "liftright_data_server"
version = "0.1.0"
edition = "2021"
publish = false

[dependencies]
warp = "0.3"
tokio = { version = "1", features = ["full"] }
mongodb = "3"
clap = { version = "4", features = ["derive"] }
serde = { version = "1", features = ["derive"] }
serde_json = "1"
chrono = { version = "0.4", features = ["serde"] }
pretty_env_logger = "0.5"

[dev-dependencies]
uuid = { version = "1", features = ["v4"] }
