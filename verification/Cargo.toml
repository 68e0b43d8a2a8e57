[package]
name = "btc_rest_gateway"
version = "0.1.0"
edition = "2021"
publish = false

[dependencies]
actix-web = "*"
bitcoincore-rpc = "*"
clap = "*"
serde_json = "*"
