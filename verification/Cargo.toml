[package]
name = "splinux"
version = "0.1.0"
edition = "2021"
publish = false

[dependencies]
clap = "=4.6.7"
evdev = "=0.13.2"
flume = "=0.12.0"
uinput = { version = "=0.1.3", default-features = false }
x11rb = { version = "=0.14.0", features = ["xtest"] }
