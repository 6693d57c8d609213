[package]
name = "jsonrpc_client_http"
version = "0.1.0"
edition = "2021"
publish = false

[dependencies]
hyper = "0.11"
futures = "0.1"
tokio-core = "0.1"
jsonrpc-client-core = "*"
