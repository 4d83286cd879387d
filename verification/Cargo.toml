[package]
name = "acolor"
version = "0.1.0"
edition = "2021"
publish = false

[dependencies]
approx = "=0.5.1"
devela = "0.9.0"
iunorm = "=0.2.2"
libm = "=0.2.16"
