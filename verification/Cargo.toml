[package]
name = "ormx_schema"
version = "0.1.0"
edition = "2021"
publish = false

[dependencies]
itertools = "=0.9.0"
proc-macro2 = { version = "=1.0.107", default-features = false }
quote = { version = "=1.0.47", default-features = false }
syn = { version = "2", default-features = false, features = ["clone-impls", "derive", "full", "parsing", "printing"] }
