[package]
name = "terminal_plugin"
version = "0.1.0"
edition = "2021"
publish = false

[dependencies]
portable-pty = "*"
tracing = "=0.1.44"
