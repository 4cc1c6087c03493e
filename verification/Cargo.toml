[package]
name = "boardgen"
version = "0.1.0"
edition = "2021"
publish = false

[dependencies]
proc-macro2 = "=1.0.107"
quote = "=1.0.47"
embedded-hal = { version = "=0.2.7", features = ["unproven"] }
mcp23017 = "=1.1.0"
