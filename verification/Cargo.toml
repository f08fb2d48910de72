[package]
name = "wdscli"
version = "0.1.0"
edition = "2021"
publish = false

[dependencies]
crossbeam = "=0.8.5"
walkdir = "=2.5.0"
serde_json = "=1.0.151"
rayon = "=1.12.0"
