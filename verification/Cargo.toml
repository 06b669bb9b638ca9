[package]
name = "clipboard_transport"
version = "0.1.0"
edition = "2021"
publish = false

[dependencies]
arboard = "3"
base64 = "0.22"
duct = "0.13"
napi = { version = "2", features = ["napi6"] }
napi-derive = "2"
wsl = "0.1"
