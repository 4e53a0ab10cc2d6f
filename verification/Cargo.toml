[package]
name = "vvvvvv_hook"
version = "0.1.0"
edition = "2021"
publish = false

[dependencies]
cpp_demangle = "=0.4.5"
ctor = "=0.2.9"
cute-log = "1"
detour = "=0.8.1"
inventory = "=0.1.11"
libargs = "=0.1.2"
libc = "=0.2.191"
libloading = "=0.7.4"
log = "=0.4.35"
once_cell = "=1.21.4"
