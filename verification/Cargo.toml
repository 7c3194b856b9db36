[package]
name = "crosvm_plugin"
version = "0.1.0"
edition = "2021"
publish = false

[dependencies]
libc = "=0.2.191"
protobuf = "=1.7.5"
