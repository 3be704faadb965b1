[package]
name = "rerman"
version = "0.1.0"
edition = "2021"
publish = false

[dependencies]
url = "*"
anyhow = "*"
clap = { version = "*", features = ["derive"] }
directories = "*"
env_logger = "*"
fluent = "*"
log = "*"
serde = { version = "*", features = ["derive"] }
serde_json = "*"
sys-locale = "*"
tabled = "*"
tokio = { version = "*", features = ["macros", "rt-multi-thread", "process", "fs"] }
toml = "*"
unic-langid = { version = "*", features = ["macros"] }
