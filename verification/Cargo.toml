[package]
name = "german_dst"
version = "0.1.0"
edition = "2021"

[dependencies]
time = "0.3"
