[package]
name = "light_macros"
version = "0.1.0"
edition = "2021"
publish = false

[dependencies]
bs58 = "0.5"
proc-macro2 = "1"
quote = "1"
syn = { version = "1", features = ["full"] }
anchor-syn = "0.26"
