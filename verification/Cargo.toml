[package]
name = "near_abi_interface"
version = "0.1.0"
edition = "2021"
publish = false

[dependencies]
convert_case = "*"
near-sdk = { version = "=4.1.0-pre.0", default-features = false, features = ["abi"] }
proc-macro2 = "*"
quote = "*"
schemafy_lib = "*"
serde = { version = "*", features = ["derive"] }
serde_json = "*"
syn = { version = "*", features = ["full"] }
