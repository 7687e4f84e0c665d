[package]
name = "gotham"
version = "0.2.0"
edition = "2021"
publish = false

[dependencies]
hyper = "0.11"
futures = "0.1"
tokio-core = "0.1"
num_cpus = "1"
log = "0.4"
