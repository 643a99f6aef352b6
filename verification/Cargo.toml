[package]
name = "metadata_value"
version = "0.1.0"
edition = "2021"
publish = false

[dependencies]
bytes = "1"
http = "1"
base64 = "0.22"
