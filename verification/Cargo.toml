[package]
name = "local_ip_address"
version = "0.1.0"
edition = "2021"
publish = false

[dependencies]
libc = "0.2"
neli = "0.6"
