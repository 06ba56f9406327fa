[package]
name = "zk_credential"
version = "0.1.0"
edition = "2021"
publish = false

[dependencies]
spartan2 = "=0.9.0"
ff = "=0.13.1"
bincode = "=1.3.3"
bellpepper-core = "=0.4.0"
circom-scotia = "=0.2.0"
serde_json = "=1.0.154"
rust-witness = "=0.1.6"
tracing = "=0.1.44"
mopro-ffi = "=0.3.7"
uniffi = "=0.32.2"
