[package]
name = "snapmount"
version = "0.1.0"
edition = "2021"
publish = false

[dependencies]
clap = { version = "3", features = ["derive", "env"] }
clap_complete = "3"
env_logger = "0.9"
fs-err = "2"
log = "0.4"
serde = { version = "1", features = ["derive"] }
thiserror = "1"
toml = "0.5"
