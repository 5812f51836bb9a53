[package]
name = "deploy_execution"
version = "0.1.0"
edition = "2021"
publish = false

[dependencies]
async-trait = "=0.1.92"
casper-storage = "=2.0.0"
casper-types = "=5.0.1"
