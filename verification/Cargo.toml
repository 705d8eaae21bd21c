[package]
name = "fuzz"
version = "0.1.0"
edition = "2021"
publish = false

[dependencies]
clipboard = "*"
crossbeam = "*"
env_logger = "*"
libc = "*"
log = "*"
ncurses = "*"
