[package]
name = "supervisor"
version = "0.1.0"
edition = "2021"
publish = false

[dependencies]
time = "0.1"
rustc-serialize = "0.3"
clap = "2"
futures = "0.1"
libc = "0.2"
