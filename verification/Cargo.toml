[package]
name = "token_bridge"
version = "0.1.0"
edition = "2021"
publish = false

[dependencies]
num256 = "=0.6.0"
num-traits = "*"
clarity = "=1.7.0"
web30 = "=1.15.0"
futures = "=0.3.34"
futures-timer = "=3.0.4"
