[package]
name = "nirinit"
version = "0.1.0"
edition = "2021"
publish = false

[dependencies]
anstyle = "1"
clap = { version = "4", features = ["derive", "cargo"] }
color-eyre = "0.6"
dirs = "*"
eyre = "0.6"
log = "0.4"
niri-ipc = "*"
serde = { version = "1", features = ["derive"] }
serde_json = "1"
signal-hook = "0.3"
thiserror = "*"
toml = "*"
