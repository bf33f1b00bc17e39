[package]
name = "life_and_work"
version = "0.1.0"
edition = "2021"
publish = false

[dependencies]
ink = "=5.1.1"

[dev-dependencies]
sha2 = "=0.10.9"
