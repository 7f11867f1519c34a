[package]
name = "vaultier"
version = "0.1.0"
edition = "2021"
publish = false

[dependencies]
vaultrs = "*"
serde = { version = "*", features = ["derive"] }
serde_json = "*"
thiserror = "*"
url = "*"
reqwest = { version = "*", default-features = false, features = ["json", "rustls-tls"] }
