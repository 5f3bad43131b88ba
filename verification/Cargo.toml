[package]
name = "neural_network_scratch"
version = "0.1.0"
edition = "2021"
publish = false

[dependencies]
bytemuck = "*"
libm = "*"
rand = "*"
rand_distr = "*"
