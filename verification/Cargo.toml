[package]
name = "faststorage_native"
version = "0.1.0"
edition = "2021"
publish = false

[dependencies]
anyhow = "1"
byteorder = "1"
lz4_flex = "0.11"
