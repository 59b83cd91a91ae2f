[package]
name = "halo2_playground"
version = "0.1.0"
edition = "2021"
publish = false

[dependencies]
halo2_proofs = "=0.4.0"
halo2_gadgets = "=0.6.0"
pasta_curves = "=0.6.0"
ff = "=0.14.0"
group = "=0.14.0"
rand = "0.10"
