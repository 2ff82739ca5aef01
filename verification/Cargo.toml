[package]
name = "portty"
version = "0.1.0"
edition = "2021"
publish = false

[dependencies]
url = "2"
percent-encoding = "2"
serde = { version = "1", features = ["derive"] }
serde_json = "1"
bincode = "2"
toml = "*"
dirs = "*"
clap = { version = "4", features = ["derive"] }
zbus = "*"
futures-util = "0.3"
futures-lite = "2"
blocking = "1"
tracing = "0.1"
tracing-subscriber = { version = "0.3", features = ["env-filter"] }
thiserror = "*"
