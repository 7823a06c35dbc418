[package]
name = "pix_win_loop"
version = "0.1.0"
edition = "2021"
publish = false

[dependencies]
log = "0.4"
pollster = "=0.3.0"
thiserror = "=1.0.69"
win-loop = "=0.3.0"
