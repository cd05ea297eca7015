[package]
name = "feature_extractor_pipeline"
version = "0.1.0"
edition = "2021"
publish = false

[dependencies]
bytemuck = "=1.25.2"
env_logger = "=0.11.11"
image = "=0.25.10"
pollster = "=1.0.1"
rustc_apfloat = "*"
wgpu = "=30.0.1"
