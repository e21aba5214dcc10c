[package]
name = "cirro"
version = "0.1.0"
edition = "2021"
publish = false

[dependencies]
catppuccin = "*"
clap = { version = "*", features = ["derive"] }
crossterm = "*"
etcetera = "*"
fakeit = "*"
keyring = "*"
nerd_fonts = "*"
ratatui = "*"
rpassword = "*"
