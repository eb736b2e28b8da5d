[package]
name = "vrsc_rpc"
version = "0.1.0"
edition = "2021"
publish = false

[dependencies]
dirs = "*"
os_info = "*"
jsonrpc = "*"
serde = "*"
serde_json = "*"
