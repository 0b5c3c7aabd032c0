[package]
name = "struct_extractors"
version = "0.1.0"
edition = "2021"
publish = false

[dependencies]
syn = { version = "2", features = ["full"] }
quote = "1"

[dev-dependencies]
num-traits = "0.2"
