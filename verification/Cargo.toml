[package]
name = "rustypipes"
version = "0.1.0"
edition = "2021"
publish = false

[dependencies]
unix-named-pipe = "*"
