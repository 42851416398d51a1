[package]
name = "switch-hal"
version = "0.4.0"
edition = "2021"
publish = false

[dependencies]
embedded-hal = { version = "0.2", features = ["unproven"] }

[dev-dependencies]
embedded-hal-mock = "0.8"
