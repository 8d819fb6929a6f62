[package]
name = "aws_lc"
version = "0.1.0"
edition = "2021"
publish = false

[dependencies]
bindgen = "0.72"
dunce = "1.0"
fs_extra = "1.3"
untrusted = "0.7"
zeroize = "1"
