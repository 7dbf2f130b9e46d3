[package]
name = "gdew0213i5f"
version = "0.1.0"
edition = "2021"
publish = false

[dependencies]
embedded-hal = { version = "0.2", features = ["unproven"] }
embedded-graphics = "0.4"
