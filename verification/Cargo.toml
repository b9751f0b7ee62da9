[package]
name = "arp_poison"
version = "0.1.0"
edition = "2021"
publish = false

[dependencies]
pnet = "*"
netdev = "*"
clap = { version = "4", features = ["derive"] }
