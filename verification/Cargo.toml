[package]
name = "ghosty_launch"
version = "0.1.0"
edition = "2021"
publish = false

[dependencies]
anyhow = "1"
base64 = "0.22"
crossterm = "0.28"
dirs = "5"
futures-util = "0.3"
getrandom = "0.2"
ratatui = "0.29"
reqwest = { version = "0.12", default-features = false, features = ["json"] }
rodio = { version = "0.19", default-features = false }
serde = { version = "1", features = ["derive"] }
serde_json = "1"
sha2 = "0.10"
tokio = { version = "1", features = ["rt-multi-thread", "macros", "sync", "time", "net", "io-util", "fs", "process"] }
toml = "0.8"
urlencoding = "2"
