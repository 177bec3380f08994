[package]
name = "gdsave"
version = "0.1.0"
edition = "2021"
publish = false

[dependencies]
base64 = "0.22"
flate2 = "1"
indextree = "4"
xml-rs = "0.8"
thiserror = "1"
