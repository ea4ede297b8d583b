[package]
name = "qr_exchange"
version = "0.1.0"
edition = "2021"
publish = false

[dependencies]
sodiumoxide = "*"
zstd = "*"
base64 = "*"
qrcode = "*"
image = "*"
rqrr = "*"
