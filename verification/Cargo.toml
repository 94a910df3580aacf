[package]
name = "proot_rs"
version = "0.1.0"
edition = "2021"
publish = false

[dependencies]
libc = "0.2"
nix = "0.23"
byteorder = "1"
sc = "0.2"
clap = "2"
lazy_static = "1"
bstr = "0.2"
