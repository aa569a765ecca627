[package]
name = "sea_orm_newtype_derive"
version = "0.1.0"
edition = "2021"
publish = false

[dependencies]
darling = "=0.20.11"
proc-macro2 = "=1.0.107"
quote = "=1.0.47"
sea-orm = { version = "*", default-features = false }
syn = { version = "=2.0.119", features = ["full", "extra-traits"] }
