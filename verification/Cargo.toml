[package]
name = "ripewire"
version = "0.1.0"
edition = "2021"
publish = false

[dependencies]
bstr = "1"
nix = { version = "0.27", features = ["socket", "uio", "user", "hostname", "fs"] }
