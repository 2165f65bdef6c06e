[package]
name = "tundev"
version = "0.1.0"
edition = "2021"
publish = false

[dependencies]
tun = "=0.6.1"
simple_wintun = "=0.1.0"
