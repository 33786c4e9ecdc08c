[package]
name = "steering"
version = "0.1.0"
edition = "2021"
publish = false

[dependencies]
gilrs = "0.10"
nix = "0.26"
async-std = "1"
