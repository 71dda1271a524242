[package]
name = "fms_forwarder"
version = "0.1.0"
edition = "2021"
publish = false

[dependencies]
zenoh = { version = "*", default-features = false }
clap = "*"
log = "*"
protobuf = "*"
