[package]
name = "indranet_cache"
version = "0.1.0"
edition = "2021"
publish = false

[dependencies]
directories = "=5.0.1"
