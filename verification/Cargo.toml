[package]
name = "yd_client_sys"
version = "0.1.0"
edition = "2021"
publish = false

[dependencies]
Inflector = "*"
clang = "*"
futures = "*"
