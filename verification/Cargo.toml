[package]
name = "sam3x8e_hal"
version = "0.1.0"
edition = "2021"
publish = false

[dependencies]
sam3x8e = "*"
embedded-hal = { version = "0.2", features = ["unproven"] }
