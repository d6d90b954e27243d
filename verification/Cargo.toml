[package]
name = "blockchain_database"
version = "0.1.0"
edition = "2021"
publish = false

[dependencies]
arc-swap = "=1.9.3"
bytemuck = "=1.25.2"
fjall = "=3.1.13"
monero-oxide = "=0.1.0"
rand = "=0.8.8"
tapes = "=0.2.0"
tracing = "=0.1.44"
