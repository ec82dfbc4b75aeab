[package]
name = "fused_gpu"
version = "0.1.0"
edition = "2021"
publish = false

[dependencies]
crc32fast = "=1.5.4"
half = "=2.7.1"
wgpu = "=30.0.1"
gpu_telemetry = "=0.2.1"
rocm-rt = { version = "=0.2.2", features = ["hip", "hiprtc", "dynamic-loading", "std"] }
