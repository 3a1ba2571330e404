[package]
name = "tool_runtime"
version = "0.1.0"
edition = "2021"
publish = false

[dependencies]
async-trait = "*"
tokio-util = "*"
