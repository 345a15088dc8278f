[package]
name = "kzg_multiopen"
version = "0.1.0"
edition = "2021"
publish = false

[dependencies]
ff = "=0.13.1"
group = "=0.13.0"
halo2curves = "=0.10.0"
rand_core = { version = "=0.6.4", features = ["getrandom"] }
