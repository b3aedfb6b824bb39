[package]
name = "oneclick_brm"
version = "0.1.0"
edition = "2021"
publish = false

[dependencies]
actix-web = "=4.18.1"
actix-cors = "=0.7.2"
actix-multipart = "=0.6.2"
futures-util = "=0.3.34"
serde = { version = "=1.0.229", features = ["derive"] }
chrono = { version = "=0.4.45", features = ["serde"] }
log = "=0.4.35"
env_logger = "=0.10.2"
toml = "=0.8.23"
zip = "=0.6.6"
rand = "=0.8.8"
