[package]
name = "btf_core"
version = "0.1.0"
edition = "2021"
publish = false

[dependencies]
object = "*"
proc-macro2 = "*"
quote = "*"
syn = { version = "*", features = ["full"] }
