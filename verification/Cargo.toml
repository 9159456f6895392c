[package]
name = "kakarot_core"
version = "0.1.0"
edition = "2021"
publish = false

[dependencies]
anyhow = "1"
async-trait = "0.1"
eyre = "0.6"
futures = "0.3"
num-bigint = "0.4"
starknet = "0.5.0"
url = "2"
