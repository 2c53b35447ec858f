[package]
name = "eax"
version = "0.1.0"
edition = "2021"
publish = false

[dependencies]
aes = "0.6"
cipher = "0.2"
cmac = "0.5"
ctr = "0.6"
subtle = "2"
