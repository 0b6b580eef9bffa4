[package]
name = "vulkanite"
version = "0.1.0"
edition = "2021"
publish = false

[dependencies]
ash = "0.37"
gpu-alloc = "0.5"
gpu-alloc-ash = "0.5"
naga = { version = "0.10", features = ["wgsl-in", "spv-out", "validate"] }
parking_lot = "0.12"
shaderc = "0.8"
thiserror = "1"
tracing = "0.1"
