[package]
name = "drand_client"
version = "0.1.0"
edition = "2021"
publish = false

[dependencies]
anyhow = "1"
bls12_381 = { version = "0.8", features = ["experimental"] }
config = { version = "0.13", default-features = false, features = ["toml"] }
dotenv = "0.15"
group = "0.13"
hex = "0.4"
pairing = "0.23"
reqwest = { version = "0.11", default-features = false, features = ["json"] }
serde = { version = "1", features = ["derive"] }
sha2 = "0.9"
