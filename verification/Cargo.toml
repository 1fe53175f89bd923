[package]
name = "test_napi"
version = "0.1.0"
edition = "2021"
publish = false

[dependencies]
napi-sys = { version = "~2.2", default-features = false, features = ["napi7"] }
