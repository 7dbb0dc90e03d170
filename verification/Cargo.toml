[package]
name = "fix_codec"
version = "0.1.0"
edition = "2021"
publish = false

[dependencies]
memchr = "2"
smallvec = "1"
