[package]
name = "sifis-td"
version = "0.1.0"
edition = "2021"
publish = false

[dependencies]
jsonptr = "=0.3.6"
serde = { version = "=1.0.229", features = ["derive"] }
serde_json = "=1.0.154"
wot-td = "=0.6.2"
