[package]
name = "wsrelay"
version = "0.1.0"
edition = "2021"
publish = false

[dependencies]
config = "0.10"
hyper = "0.12"
ws = "0.9"
