[package]
name = "st25r95"
version = "0.6.0"
edition = "2021"
publish = false

[dependencies]
heapless = "=0.9.3"
