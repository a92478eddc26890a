[package]
name = "aeron_rs_media_driver"
version = "0.1.0"
edition = "2021"
publish = false

[dependencies]
ctrlc = "3"
libaeron_driver-sys = "*"
