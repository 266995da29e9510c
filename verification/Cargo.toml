[package]
name = "ez_term"
version = "0.1.0"
edition = "2021"
publish = false

[dependencies]
crossterm = "0.27"
unicode-segmentation = "1.10"
