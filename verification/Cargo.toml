[package]
name = "pcbusb"
version = "0.1.0"
edition = "2021"
publish = false

[dependencies]
embedded-can = "*"
nb = "*"
nix = "0.23"
winapi = { version = "0.3", features = ["minwindef", "synchapi", "winbase", "winnt"] }
