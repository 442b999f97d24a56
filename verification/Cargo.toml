[package]
name = "hydrogen"
version = "0.1.0"
edition = "2021"
publish = false

[dependencies]
epoll = "*"
lazy_static = "*"
libc = "*"
log = "*"
parking_lot = "*"
