[package]
name = "weechat"
version = "0.1.0"
edition = "2021"
publish = false

[dependencies]
weechat-sys = "*"
libc = "0.2"
backtrace = "0.3"
async-task = "4"
