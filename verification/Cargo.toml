[package]
name = "bed"
version = "0.1.0"
edition = "2021"
publish = false

[dependencies]
getrandom = "=0.3.4"

[dependencies.bitcoin-encrypted-backup]
version = "=0.0.2"
default-features = false
features = ["miniscript_12_3_5"]
