[package]
name = "ftdi_nusb"
version = "0.3.0"
edition = "2021"
publish = false

[dependencies]
nusb = "0.2"
futures-lite = "2"
futures-timer = "3"
embedded-hal = "1"
embedded-io = "*"
log = "0.4"
