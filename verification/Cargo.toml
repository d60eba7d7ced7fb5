[package]
name = "chat_core"
version = "0.1.0"
edition = "2021"
publish = false

[dependencies]
spacetimedb = "=1.12.0"
log = "=0.4.34"
