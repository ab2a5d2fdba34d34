[package]
name = "roast"
version = "0.1.0"
edition = "2021"
publish = false

[dependencies]
Inflector = "0.11"
syn = { version = "1", features = ["full"] }
proc-macro2 = "1"
quote = "1"
walkdir = "2"
jni = "0.19"
