[package]
name = "xpra"
version = "0.1.0"
edition = "2021"
publish = false

[dependencies]
yaml-rust2 = "*"
base64 = "*"
turbojpeg = "*"
spng = "*"
machine-uid = "*"
