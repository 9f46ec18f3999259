[package]
name = "ettac"
version = "0.1.0"
edition = "2021"
publish = false

[dependencies]
argh = "0.1"
base64 = "0.22"
libssh-rs = { version = "*", features = ["vendored", "vendored-openssl"] }
mlua = { version = "0.10", features = ["lua54", "vendored"] }
partially = { version = "*", features = ["derive"] }
shlex = "1"
thiserror = "*"
