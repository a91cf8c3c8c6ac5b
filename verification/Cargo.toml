[package]
name = "terminal"
version = "0.2.1"
edition = "2021"
publish = false

[dependencies]
crosscurses = "*"
libc = "0.2"
