[package]
name = "secret_sharing"
version = "0.1.0"
edition = "2021"
publish = false

[dependencies]
anyhow = "1"
group = "0.13"

[dev-dependencies]
p384 = { version = "0.13", default-features = false, features = ["arithmetic", "hash2curve"] }
sha2 = { version = "0.10", default-features = false }
