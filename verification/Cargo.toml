[package]
name = "rotary_encoder"
version = "0.1.0"
edition = "2021"
publish = false

[dependencies]
embedded-hal = "0.2"
embedded-time = "0.12"
either = "1"
rotary-encoder-hal = "0.5"
