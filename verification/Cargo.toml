[package]
name = "extractous_ffi"
version = "0.1.0"
edition = "2021"
publish = false

[dependencies]
extractous = "0.3.0"
libc = "0.2"
