[package]
name = "gix_archive"
version = "0.1.0"
edition = "2021"
publish = false

[dependencies]
tar = "*"
gix-path = "*"
bstr = "*"
