[package]
name = "sweepr"
version = "0.1.0"
edition = "2021"
publish = false

[dependencies]
bdk = { version = "=0.30.2", default-features = false, features = ["std", "keys-bip39", "use-esplora-async", "async-interface"] }
clap = { version = "=4.6.7", features = ["derive"] }
futures = "=0.3.34"
rayon = "=1.12.0"
