[package]
name = "fectl"
version = "0.1.0"
edition = "2021"
publish = false

[dependencies]
actix = "0.3"
byteorder = "=1.5.0"
bytes = "=0.4.12"
futures = "=0.1.31"
libc = "0.2"
log = "0.4"
nix = "=0.9.0"
serde = { version = "1", features = ["derive"] }
serde_json = "=1.0.154"
tokio-core = "0.1"
tokio-io = "0.1"
tokio-uds = "=0.1.7"
