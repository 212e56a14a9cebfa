[package]
name = "checkpoint"
version = "0.1.0"
edition = "2021"
publish = false

[dependencies]
bitcoin = "=0.32.102"
orga = "=0.1.9"
