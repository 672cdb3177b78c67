[package]
name = "mock_routing"
version = "0.1.0"
edition = "2021"
publish = false

[dependencies]
tiny-keccak = "1"
rand = "0.8"
rust_sodium = "*"
maidsafe_utilities = "*"
futures = "0.1"
