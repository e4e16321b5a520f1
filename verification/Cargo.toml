[package]
name = "k8s_basic_auth_translator"
version = "0.1.0"
edition = "2021"
publish = false

[dependencies]
base64 = "0.13"
clap = { version = "3", features = ["derive", "env"] }
env_logger = "0.9"
log = "0.4"
