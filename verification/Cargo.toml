[package]
name = "arq_rust"
version = "0.1.0"
edition = "2021"
publish = false

[dependencies]
chrono = "*"
colored = "*"
comfy-table = "*"
nvml-wrapper = "*"
sysinfo = "*"
