[package]
name = "devenv_provision"
version = "0.1.0"
edition = "2021"
publish = false

[dependencies]
anyhow = "=1.0.104"
base64 = "=0.21.7"
clap = { version = "=4.6.7", features = ["derive"] }
git2 = { version = "=0.18.3", default-features = false }
nixpacks = "=1.41.0"
ssh2 = "=0.9.6"
tokio = { version = "=1.54.1", features = ["macros", "rt-multi-thread", "signal"] }
