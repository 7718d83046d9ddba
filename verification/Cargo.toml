[package]
name = "gpu_detection"
version = "0.1.0"
edition = "2021"
publish = false

[dependencies]
nvml-wrapper = "=0.13.0"
rocm_smi_lib = "=0.3.2"
libloading = "=0.8.9"
serde = { version = "=1.0.229", features = ["derive"] }
thiserror = "=2.0.21"
