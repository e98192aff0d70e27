[package]
name = "spotty"
version = "0.1.0"
edition = "2021"
publish = false

[dependencies]
getopts = "*"
hex = "*"
sha1 = "*"

[dev-dependencies]
serde_json = "*"
