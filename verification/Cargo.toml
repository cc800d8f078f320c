[package]
name = "gromaq"
version = "0.2.0"
edition = "2021"
publish = false

[dependencies]
wgpu = "*"
pollster = "*"
portable-pty = "*"
thiserror = "*"
