[package]
name = "netavark"
version = "0.1.0"
edition = "2021"
publish = false

[dependencies]
rand = "0.8"
ipnet = "2"
log = "0.4"
nix = "0.26"
