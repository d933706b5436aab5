[package]
name = "alfred_core"
version = "0.1.0"
edition = "2021"
publish = false

[dependencies]
bytes = "*"
clap = "*"
env_logger = "*"
envconfig = "*"
log = "*"
serde = "*"
serde_derive = "*"
thiserror = "*"
tokio = { version = "*", features = ["macros", "rt-multi-thread", "time"] }
toml = "*"
zeromq = "*"
