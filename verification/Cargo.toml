[package]
name = "teleop_twist_keyboard_rust"
version = "0.1.0"
edition = "2021"
publish = false

[dependencies]
crossterm = "*"
r2r = "*"
termios = "*"
