[package]
name = "gpui_terminal"
version = "0.1.0"
edition = "2021"
publish = false

[dependencies]
alacritty_terminal = "*"
anyhow = "*"
arboard = "*"
flume = "*"
parking_lot = "*"
portable-pty = "*"
