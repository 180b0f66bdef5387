[package]
name = "jemalloc_ctl"
version = "0.1.0"
edition = "2021"
publish = false

[dependencies]
jemalloc-sys = "*"
jemallocator = "*"
libc = "*"
