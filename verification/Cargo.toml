[package]
name = "up_contract"
version = "0.1.0"
edition = "2021"
publish = false

[dependencies]
anyhow = "1"
clap = { version = "4", features = ["derive"] }
cliclack = "*"
sp-core = "*"
sp-weights = "*"
subxt-signer = { version = "*", default-features = false, features = ["sr25519", "std"] }
url = "2"
