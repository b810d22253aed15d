[package]
name = "shard"
version = "0.1.0"
edition = "2021"
publish = false

[dependencies]
bytemuck = "1"
clap = { version = "4", features = ["derive"] }
env_logger = "0.11"
failure = "0.1"
flume = "0.11"
gif = "0.13"
log = "0.4"
png = "0.17"
pollster = "0.3"
wgpu = { version = "0.19", default-features = false, features = ["wgsl"] }
