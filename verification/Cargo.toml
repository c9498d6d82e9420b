[package]
name = "steam_reset"
version = "0.1.0"
edition = "2021"
publish = false

[dependencies]
colored = "*"
dont_disappear = "*"
privilege = "*"
sysinfo = "*"
winreg = "*"
