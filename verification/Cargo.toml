[package]
name = "media_artifacts"
version = "0.1.0"
edition = "2021"
publish = false

[dependencies]
rayon = "1"
futures = "0.3"
