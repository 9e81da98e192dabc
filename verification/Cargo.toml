[package]
name = "krpc_build"
version = "0.1.0"
edition = "2021"
publish = false

[dependencies]
codegen = "=0.2.0"
convert_case = "=0.6.0"
serde_json = "=1.0.154"
