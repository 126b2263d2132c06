[package]
name = "subxtxt"
version = "0.1.0"
edition = "2021"
publish = false

[dependencies]
subxt = "*"
subxt-signer = "*"
tokio = { version = "*", features = ["rt-multi-thread", "macros", "time"] }
anyhow = "*"

[dev-dependencies]
parity-scale-codec = "*"
