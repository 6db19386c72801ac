[package]
name = "incipio"
version = "0.1.0"
edition = "2021"
publish = false

[dependencies]
cstr = "=0.2.12"
fastrand = "*"
libc-print = "=0.1.23"
nix = "=0.26.4"
