[package]
name = "up_transport_vsomeip"
version = "0.1.0"
edition = "2021"
publish = false

[dependencies]
up-rust = "*"
bimap = "*"
bytes = "*"

[dev-dependencies]
protobuf = "*"
