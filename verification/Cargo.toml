[package]
name = "cryo_cooler_controller_lib"
version = "0.1.0"
edition = "2021"
publish = false

[dependencies]
crc = "*"
serial = "*"
chrono = "*"
