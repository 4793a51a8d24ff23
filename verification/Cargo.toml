[package]
name = "meter_link"
version = "0.1.0"
edition = "2021"
publish = false

[dependencies]
byteorder = "1"
crc = "1"
serial = "0.4"
uuid = { version = "1", features = ["v4"] }
