[package]
name = "swagger"
version = "0.1.0"
edition = "2021"

[dev-dependencies]
futures = "=0.1.31"
hyper = "=0.11.27"
