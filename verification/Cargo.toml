[package]
name = "broker"
version = "0.1.0"
edition = "2021"
publish = false

[dependencies]
bcrypt = "=0.19.3"
chrono = "=0.4.45"
uuid = { version = "=1.29.0", features = ["v4", "serde"] }
serde = { version = "=1.0.229", features = ["derive"] }
serde_derive = "=1.0.229"
serde_json = { version = "=1.0.154", features = ["raw_value"] }
jsonwebtoken = "=9.3.1"
sled = "=0.34.7"
tokio = { version = "=1.54.1", features = ["full"] }
warp = "=0.3.7"
futures = "=0.3.34"
go-flag = "=0.1.0"
envy = "=0.4.2"
pretty_env_logger = "=0.5.0"
