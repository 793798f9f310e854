[package]
name = "chemic"
version = "0.1.0"
edition = "2021"
publish = false

[dependencies]
cpal = "0.15"
dasp_interpolate = { version = "0.11", features = ["linear"] }
dasp_signal = "0.11"
dialoguer = "0.11"
ringbuf = "0.3"
