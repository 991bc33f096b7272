[package]
name = "tunnel_config"
version = "0.1.0"
edition = "2021"
publish = false

[dependencies]
bytes = "*"
url = "*"
hostname = "*"
once_cell = "*"
async-trait = "*"
