[package]
name = "ironrdp-rail"
version = "0.1.0"
edition = "2021"
publish = false

[dependencies]
bitflags = "2"
ironrdp-core = "*"
ironrdp-pdu = "*"
ironrdp-svc = "*"
tracing = "0.1"
