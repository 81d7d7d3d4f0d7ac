[package]
name = "pico_range"
version = "0.1.0"
edition = "2021"
publish = false

[dependencies]
embedded-io-async = "=0.6.1"
heapless = "=0.8.0"
rust-mqtt = "=0.3.1"
