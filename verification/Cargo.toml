[package]
name = "capnpc_idiomatic_rust"
version = "0.1.0"
edition = "2021"
publish = false

[dependencies]
capnp = "*"
multimap = { version = "*", default-features = false }
