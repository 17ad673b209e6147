[package]
name = "runen-net-quic"
version = "0.1.0"
edition = "2021"
publish = false

[dependencies]
quinn = { version = "=0.11.12", default-features = false, features = ["runtime-tokio", "rustls-ring"] }
rustls-pki-types = "=1.15.1"
tokio = { version = "=1.54.1", features = ["rt", "time", "macros"] }

[dev-dependencies]
rcgen = "0.14"
