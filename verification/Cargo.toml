[package]
name = "gain_plugin"
version = "0.1.0"
edition = "2021"
publish = false

[dependencies]
vst = "*"
log = "*"
simplelog = "*"
dirs = "*"
