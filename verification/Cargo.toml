[package]
name = "stay_awake"
version = "0.1.0"
edition = "2021"
publish = false

[dependencies]
getopts = "0.2"
kernel32-sys = "0.2"
