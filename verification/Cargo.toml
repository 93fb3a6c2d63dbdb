[package]
name = "gatt_core"
version = "0.1.0"
edition = "2021"
publish = false

[dependencies]
async-broadcast = "*"
async-lock = "*"
futures-core = "*"
futures-lite = "*"
futures-timer = "*"
uuid = "*"
