[package]
name = "rustyvisor"
version = "0.1.0"
edition = "2021"
publish = false

[dependencies]
x86 = "*"
spin = "0.9"
log = "0.4"
