[package]
name = "sel4_support"
version = "0.1.0"
edition = "2021"
publish = false

[dependencies]
miniz_oxide = "0.8"
zerocopy = "0.7"
