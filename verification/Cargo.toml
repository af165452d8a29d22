[package]
name = "file_server"
version = "0.1.0"
edition = "2021"

[dependencies]
futures = "0.1"
hyper = "0.11"
