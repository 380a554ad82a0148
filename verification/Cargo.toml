[package]
name = "ccp_nimbus"
version = "0.1.0"
edition = "2021"
publish = false

[dependencies]
rand = "0.8"
anyhow = "1"
num-complex = "0.4"
rustfft = "6"
structopt = "0.3"
tracing = "0.1"
portus = "*"
