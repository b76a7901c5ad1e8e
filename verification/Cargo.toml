[package]
name = "remem"
version = "0.1.0"
edition = "2021"
publish = false

[dependencies]
crossbeam-queue = "*"

[dev-dependencies]
crossbeam-utils = "*"
