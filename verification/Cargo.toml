[package]
name = "tao"
version = "0.1.0"
edition = "2021"
publish = false

[dependencies]
crossbeam-channel = "0.5"
url = "2"
libc = "0.2"
once_cell = "1"
