[package]
name = "rl_replay"
version = "0.1.0"
edition = "2021"
publish = false

[dependencies]
boxcars = "*"
serde_json = "*"
