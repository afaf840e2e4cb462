[package]
name = "error_code"
version = "0.1.0"
edition = "2021"
publish = false

[dependencies]
base64 = "*"
darling = "*"
syn = "*"
quote = "*"
proc-macro2 = "*"
