[package]
name = "dronekit"
version = "0.1.0"
edition = "2021"
publish = false

[dependencies]
bit-vec = "*"
byteorder = "1"
crc16 = "*"
eventual = "*"
mio = { version = "1", features = ["os-poll", "net"] }
