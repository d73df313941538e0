[package]
name = "scorched_earth"
version = "0.1.0"
edition = "2021"
publish = false

[dependencies]
log = "=0.4.34"
neovim-lib = "=0.6.1"
rmp = "=0.8.9"
simplelog = "=0.4.4"
