[package]
name = "png_common"
version = "0.1.0"
edition = "2021"
publish = false

[dependencies]
bitflags = "1"
deflate = "=0.8.6"
