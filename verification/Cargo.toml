[package]
name = "thebestofcmu"
version = "0.1.0"
edition = "2021"
publish = false

[dependencies]
async-ctrlc = "1"
async-std = { version = "1", features = ["unstable"] }
eyre = "0.6"
hyper = { version = "0.14", features = ["server", "http1", "http2"] }
log = "0.4"
ron = "0.7"
rustls = "0.20"
rustls-pemfile = "1"
serde = { version = "1", features = ["derive"] }
serde_json = "1"
simple-logging = "2"
sqlx = { version = "0.6", default-features = false, features = ["runtime-async-std-rustls", "postgres"] }
stable-eyre = "0.2"
time = { version = "0.3", features = ["formatting"] }
tokio = "1"
tokio-rustls = "0.23"
