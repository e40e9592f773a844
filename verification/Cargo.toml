[package]
name = "libopus"
version = "0.1.0"
edition = "2021"
publish = false

[dependencies]
av-bitstream = "*"
av-codec = "*"
av-data = "*"
