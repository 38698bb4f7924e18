[package]
name = "bitcoin_node_query"
version = "0.1.0"
edition = "2021"
publish = false

[dependencies]
bitcoin-address = "=0.1.5"
bitcoin-transaction-utils = "=0.1.0"
bitcoind-request = "=0.1.17"
chrono = "=0.4.45"
jsonrpc = "=0.13.0"
