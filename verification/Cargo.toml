[package]
name = "koka_fmt"
version = "0.1.0"
edition = "2021"
publish = false

[dependencies]
diplomat_core = { version = "=0.16.1", features = ["hir"] }
heck = "=0.5.0"
