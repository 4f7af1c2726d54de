[package]
name = "mosaic_node"
version = "0.1.0"
edition = "2021"
publish = false

[dependencies]
log = "=0.4.34"
tokio = { version = "=1.54.1", features = ["rt"] }
web3 = { version = "=0.19.0", default-features = false, features = ["http"] }
