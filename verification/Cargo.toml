[package]
name = "asha"
version = "0.1.0"
edition = "2021"
publish = false

[dependencies]
byteorder = "=1.5.0"
simplersble = "=1.2.0"
futures = "0.3"
