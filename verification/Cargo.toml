[package]
name = "tizen"
version = "0.1.0"
edition = "2021"
publish = false

[dependencies]
log = "0.4"
libc = "0.2"
tokio = { version = "1", features = ["rt-multi-thread", "time"] }
libloading = "0.8"
raw-window-handle = "0.6"
xkbcommon-dl = "0.4"
memmap2 = "0.9"
