[package]
name = "uds_rw"
version = "0.1.0"
edition = "2021"
publish = false

[dependencies]
pretty-hex = "*"
thiserror = "*"
