[package]
name = "bars"
version = "0.1.0"
edition = "2021"
publish = false

[dependencies]
alsa = "*"
anyhow = "*"
libnotify = "*"
pulsectl-rs = "*"
systemstat = "*"
