[package]
name = "liquidity_pools_gateway_routers"
version = "0.1.0"
edition = "2021"
publish = false

[dependencies]
ethabi = "18"
hex = "0.4"
