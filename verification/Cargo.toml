[package]
name = "just_core"
version = "0.1.0"
edition = "2021"
publish = false

[dependencies]
target = "1"
ansi_term = "0.12"
atty = "0.2"
