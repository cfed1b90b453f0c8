[package]
name = "dids"
version = "0.1.0"
edition = "2021"
publish = false

[dependencies]
did-web = "=0.2.2"
ssi-dids = "=0.1.1"
ssi-jwk = { version = "=0.1.2", default-features = false }
