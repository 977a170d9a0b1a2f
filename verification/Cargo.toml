[package]
name = "cuda_core"
version = "0.1.0"
edition = "2021"
publish = false

[dependencies]
dlopen = "0.1"
dlopen_derive = "0.1"
log = "0.4"
pretty_env_logger = "0.5"
