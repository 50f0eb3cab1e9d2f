[package]
name = "pty_endpoints"
version = "0.1.0"
edition = "2021"
publish = false

[dev-dependencies]
redox_syscall = "*"
