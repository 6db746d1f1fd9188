[package]
name = "ciphered"
version = "0.1.0"
edition = "2021"
publish = false

[dependencies]
base64 = "*"
color-eyre = "*"
crossterm = "*"
ratatui = "*"
