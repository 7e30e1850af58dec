[package]
name = "deterrence"
version = "0.1.0"
edition = "2021"
publish = false

[dependencies]
bevy = { version = "0.19", default-features = false }
bevy_prng = { version = "0.15", features = ["wyrand"] }
bevy_rand = "0.15"
clap = { version = "=4.6.7", features = ["derive"] }
rand = "=0.10.3"
rand_core = "=0.10.1"
