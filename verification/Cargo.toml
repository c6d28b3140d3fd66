[package]
name = "bytestr"
version = "0.1.0"
edition = "2021"
publish = false

[dependencies]
bytes = "1"
bytestring = "1"
base64 = "0.13"
libc = "0.2"
