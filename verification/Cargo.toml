[package]
name = "enum_variant_name_const"
version = "0.1.0"
edition = "2021"

[dependencies]
proc-macro2 = { version = "1", features = ["span-locations"] }
quote = "1"
syn = "2"
