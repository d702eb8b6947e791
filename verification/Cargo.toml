[package]
name = "ssh_cli"
version = "0.1.0"
edition = "2021"
publish = false

[dependencies]
anyhow = "1"
base64 = "0.22"
clap = { version = "4", features = ["derive"] }
directories = "5"
serde = { version = "1", features = ["derive"] }
serde_json = "1"
ssh2 = "0.9"
tempfile = "3"
thiserror = "1"
tiny_http = "0.12"
ureq = { version = "2", default-features = false }
which = "*"
