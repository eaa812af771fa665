[package]
name = "cubic"
version = "0.1.0"
edition = "2021"
publish = false

[dependencies]
config = { version = "0.13", default-features = false, features = ["toml"] }
glutin = "0.29"
gl33 = "*"
