[package]
name = "sm121-kernels"
version = "0.1.0"
edition = "2021"
publish = false

[dependencies]
cudarc = { version = "0.15.2", default-features = false, features = ["std", "driver", "nccl", "dynamic-loading", "cuda-12080"] }
