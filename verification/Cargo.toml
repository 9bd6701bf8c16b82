[package]
name = "unspoken_cli"
version = "0.1.0"
edition = "2021"
publish = false

[dependencies]
anyhow = "=1.0.104"
clap = { version = "=4.6.7", features = ["derive"] }
colored = "=3.1.1"
dirs = "=7.0.0"
serde = { version = "=1.0.229", features = ["derive"] }
# serde_json and ureq serve app/ alone. They carry a request to the completion
# endpoint as JSON over HTTP: the client crate `unspoken`, which would make
# that call, is not to be had from the registry.
serde_json = "=1.0.154"
toml = "=1.1.8"
ureq = "=3.5.0"
