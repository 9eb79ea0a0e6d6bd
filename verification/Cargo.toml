[package]
name = "libsignal_bridge"
version = "0.1.0"
edition = "2021"
publish = false

[dependencies]
aes-gcm-siv = "*"
libc = "0.2"
