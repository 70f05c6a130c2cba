[package]
name = "windows-kernel"
version = "0.1.0"
edition = "2021"
publish = false

[dependencies]
httparse = "1"
either = "1"
itertools = "*"
bindgen = { version = "0.59", default-features = false, features = ["runtime"] }
winreg = "*"
winapi = { version = "0.3", features = ["ntdef", "basetsd", "ws2def", "ntstatus", "ntlsa", "inaddr", "mstcpip"] }
cty = "0.2"
kernel-alloc = "*"
