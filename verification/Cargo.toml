[package]
name = "reseeding"
version = "0.1.0"
edition = "2021"
publish = false

[dependencies]
rand_core = { version = "0.4", features = ["std"] }

[dev-dependencies]
rand = "0.6"
