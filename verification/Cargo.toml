[package]
name = "fedlearn"
version = "0.1.0"
edition = "2021"
publish = false

[dependencies]
actix = "*"
actix-web = "*"
awc = "*"
anyhow = "*"
env_logger = "*"
etcd-client = "*"
log = "*"
ndarray = "*"
once_cell = "*"
rand = "*"
serde = { version = "*", features = ["derive"] }
serde_json = "*"
tokio = { version = "*", features = ["macros", "rt", "time"] }
