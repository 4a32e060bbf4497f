[package]
name = "tap"
version = "0.3.0"
edition = "2021"
publish = false

[dependencies]
futures = "0.1"
nom = "3"
