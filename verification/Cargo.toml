[package]
name = "quiroscopio"
version = "0.1.0"
edition = "2021"
publish = false

[dependencies]
anyhow = "1"
crossbeam-channel = "0.5"
evdev = "0.12"
rand = "0.8"
