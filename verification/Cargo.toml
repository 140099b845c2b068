[package]
name = "dprint-plugin-oxc"
version = "0.1.0"
edition = "2021"
publish = false

[dependencies]
anyhow = "=1.0.104"
dprint-core = "=0.71.1"
indexmap = "=2.14.2"
oxc_allocator = "=0.141.0"
oxc_parser = "=0.141.0"
oxc_span = "=0.141.0"
serde = { version = "=1.0.229", features = ["derive"] }
