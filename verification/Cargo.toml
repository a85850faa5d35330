[package]
name = "escher"
version = "0.1.0"
edition = "2021"
publish = false

[dependencies]
futures-task = "0.3"
syn = "2"
quote = "1"
