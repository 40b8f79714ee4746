[package]
name = "cpu_optimized_app"
version = "0.1.0"
edition = "2021"
publish = false

[dependencies]
raw-cpuid = "*"
libloading = "*"
libc = "*"
log = "*"
env_logger = "*"
