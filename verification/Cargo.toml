[package]
name = "traffic_replay"
version = "0.1.0"
edition = "2021"
publish = false

[dependencies]
piston = "*"
rand = "0.7"
rand_xorshift = "0.2"
