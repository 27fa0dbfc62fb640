[package]
name = "ecc_gadgets"
version = "0.1.0"
edition = "2021"
publish = false

[dependencies]
arrayvec = "0.7"
ff = "0.12"
group = "0.12"
pasta_curves = "0.4"

[dev-dependencies]
rand = "0.8"
