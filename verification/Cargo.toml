[package]
name = "maxpre"
version = "0.1.0"
edition = "2021"
publish = false

[dependencies]
rustsat = { version = "=0.7.5", features = ["multiopt"] }
