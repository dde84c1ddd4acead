[package]
name = "adventure_engine"
version = "0.1.0"
edition = "2021"
publish = false

[dependencies]
rand = "*"
prettytable-rs = "*"
