[package]
name = "orb_core"
version = "0.1.0"
edition = "2021"
publish = false

[dependencies]
data-encoding = "2"
rand = "0.8"
nmea-parser = "*"
serde = { version = "1", features = ["derive"] }
alsa-sys = "*"
libc = "0.2"
close_fds = "*"
