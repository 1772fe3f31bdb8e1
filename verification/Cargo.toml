[package]
name = "pidfd_getfd"
version = "0.2.0"
edition = "2021"
publish = false

[dependencies]
libc = "0.2"
pidfd = "0.2"
