[package]
name = "qubit-rayon-batch"
version = "0.10.0"
edition = "2021"
publish = false

[dependencies]
qubit-batch = "=0.14.3"
qubit-function = "=0.18.3"
qubit-progress = "=0.9.2"
rayon = "=1.12.0"
thiserror = "=2.0.21"
