[package]
name = "re_rolling"
version = "0.1.0"
edition = "2021"
publish = false

[dependencies]
fastrand = "1"
