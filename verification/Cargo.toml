[package]
name = "bdk_cli"
version = "0.1.0"
edition = "2021"
publish = false

[dependencies]
bdk = { version = "=0.30.2", features = ["electrum", "key-value-db", "keys-bip39"] }
rustyline = "=18.0.1"
dirs-next = "*"
serde_json = "*"
log = "*"
env_logger = "*"
