[package]
name = "sensehat_stick"
version = "0.1.0"
edition = "2021"
publish = false

[dependencies]
evdev = "=0.10.2"
failure = "=0.1.8"
glob = "=0.2.11"
mio = "=0.6.23"
nix = "=0.9.0"
