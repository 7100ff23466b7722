[package]
name = "metronome"
version = "0.1.0"
edition = "2021"
publish = false

[dependencies]
rand = "0.8"
crossterm = "0.27"
rodio = { version = "0.17", default-features = false }
