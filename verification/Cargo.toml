[package]
name = "bz2"
version = "0.1.0"
edition = "2021"
publish = false

[dependencies]
bzip2 = "0.4"
