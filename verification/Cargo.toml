[package]
name = "multisig_engine"
version = "0.1.0"
edition = "2021"
publish = false

[dependencies]
sha2 = "0.10"
num-bigint = "0.4"
