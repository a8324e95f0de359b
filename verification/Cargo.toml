[package]
name = "tessmux_pty"
version = "0.1.0"
edition = "2021"
publish = false

[dependencies]
portable-pty = "0.8"
anyhow = "1"
crossterm = "*"
thiserror = "*"
