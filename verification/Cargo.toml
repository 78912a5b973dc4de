[package]
name = "pie_driver"
version = "0.1.0"
edition = "2021"
publish = false

[dependencies]
anyhow = "1"
cudarc = { version = "0.17", default-features = false, features = ["std", "driver", "runtime", "dynamic-loading", "cuda-12060"] }
objc2 = "0.6"
objc2-foundation = "0.3"
objc2-metal = "0.3"
