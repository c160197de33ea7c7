[package]
name = "z3sort"
version = "0.1.0"
edition = "2021"
publish = false

[dependencies]
symbol_table = { version = "=0.5.0", features = ["global"] }
z3 = "=0.21.1"
