[package]
name = "chromium_swt"
version = "0.1.0"
edition = "2021"
publish = false

[dependencies]
nix = { version = "*", features = ["signal"] }
x11 = { version = "*", features = ["xlib"] }
