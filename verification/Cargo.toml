[package]
name = "quartz_proxy"
version = "0.1.0"
edition = "2021"
publish = false

[dependencies]
async-channel = "=1.9.0"
async-executor = "=1.14.1"
async-io = "=1.13.0"
async-lock = "=2.8.0"
futures-lite = "=1.13.0"
linefeed = "=0.6.0"
log = "=0.4.35"
once_cell = "=1.21.4"
