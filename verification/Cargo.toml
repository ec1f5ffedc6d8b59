[package]
name = "vm_core"
version = "0.1.0"
edition = "2021"
publish = false

[dependencies]
prettytable-rs = { version = "0.10", default-features = false }
