[package]
name = "modular"
version = "0.1.0"
edition = "2021"
publish = false

[dependencies]
uuid = { version = "1", features = ["v4"] }
libloading = "0.8"
parking_lot = "0.12"
wasmer = "3.1"
wasmer-wasi = "3.1"
