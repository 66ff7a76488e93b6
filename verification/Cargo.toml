[package]
name = "norgopolis_client"
version = "0.1.0"
edition = "2021"
publish = false

[dependencies]
anyhow = "=1.0.104"
futures = "=0.3.34"
norgopolis-protos = "=0.3.0"
rmp-serde = "=1.3.1"
serde = "=1.0.229"
tonic = "=0.9.2"
