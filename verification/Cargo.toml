[package]
name = "librevm"
version = "0.1.0"
edition = "2021"
publish = false

[dependencies]
alloy-primitives = { version = "0.8", default-features = false, features = ["std"] }
revm-primitives = { version = "10", default-features = false, features = ["std"] }
revm = { version = "14", default-features = false, features = ["std"] }
prost = "0.13"
libloading = "0.8"
tokio = { version = "1", features = ["rt-multi-thread", "sync", "time", "fs"] }
tempdir = "0.3"
db-key = "0.0.5"
leveldb = "0.8"
revmc = "*"
