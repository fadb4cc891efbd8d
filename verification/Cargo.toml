[package]
name = "tap"
version = "0.1.0"
edition = "2021"
publish = false

[dependencies]
displaydoc = "0.2"
libc = "0.2"
thiserror = "2"
vmm-sys-util = "*"
