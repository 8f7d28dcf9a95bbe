[package]
name = "media_capture"
version = "0.1.0"
edition = "2021"
publish = false

[dependencies]
crossbeam-channel = "=0.5.17"
ogg = "=0.9.2"
rand = "=0.8.8"
rubato = "=0.16.2"
opus-codec = "*"
