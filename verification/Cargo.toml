[package]
name = "runcat"
version = "0.1.0"
edition = "2021"
publish = false

[dependencies]
image = "*"
sysinfo = "*"
tao = "*"
tray-icon = "*"
