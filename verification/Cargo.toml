[package]
name = "sps30_hdlc"
version = "0.1.0"
edition = "2021"
publish = false

[dependencies]
hdlc = "*"
clap = { version = "*", features = ["derive"] }
serialport = "*"
