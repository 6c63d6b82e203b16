[package]
name = "snake_audio"
version = "0.1.0"
edition = "2021"
publish = false

[dependencies]
crossbeam-channel = "0.5"
rodio = "0.19"
