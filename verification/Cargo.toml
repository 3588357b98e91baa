[package]
name = "luisa_compute_backend"
version = "0.1.0"
edition = "2021"
publish = false

[dependencies]
libc = "0.2"
libloading = "0.8"
log = "0.4"
serde_json = "1"
