[package]
name = "keylock_ui"
version = "0.1.0"
edition = "2021"
publish = false

[dependencies]
rust_keylock = "=0.7.0"
libc = "=0.2.191"
log = "=0.4.35"
lazy_static = "=1.5.1"
