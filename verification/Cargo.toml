[package]
name = "befiboot"
version = "0.1.0"
edition = "2021"
publish = false

[dependencies]
log = "=0.4.34"
uefi = { version = "=0.26.0", features = ["alloc"] }
uefi-raw = "=0.5.2"
uefi-services = { version = "=0.23.0", default-features = false, features = ["logger"] }
xmas-elf = "=0.9.1"
