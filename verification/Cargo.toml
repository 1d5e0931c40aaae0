[package]
name = "ist_hyt"
version = "0.1.0"
edition = "2021"
publish = false

[dependencies]
embedded-hal = "0.2"
fixed = "1"
typenum = "1"
