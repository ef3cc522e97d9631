[package]
name = "stac_proto"
version = "0.1.0"
edition = "2021"
publish = false

[dependencies]
futures = "0.1"
grpcio = { version = "0.4", default-features = false }
