[package]
name = "rglua"
version = "0.1.0"
edition = "2021"
publish = false

[dependencies]
libloading = "0.8"
once_cell = "1"
thiserror = "1"
