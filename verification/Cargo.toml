[package]
name = "loco_client"
version = "0.1.0"
edition = "2021"
publish = false

[dependencies]
loco-protocol = "*"
futures-core = "*"
futures-io = "*"
pin-project-lite = "*"
