[package]
name = "robit"
version = "0.1.0"
edition = "2021"
publish = false

[dependencies]
mnist = { version = "*", default-features = false }
ndarray = "0.15"
ndarray-rand = "0.14"
num-traits = "0.2"
rand = "0.8"
rand_distr = "0.4"
