[package]
name = "gw2fashionista"
version = "0.1.0"
edition = "2021"
publish = false

[dependencies]
base64 = "=0.22.1"
uuid = "=1.29.1"
regex = "=1.13.1"
toml = "=0.8.23"
async-trait = "0.1"
tokio = { version = "1", features = ["rt", "time", "macros"] }
tokio-retry = "0.3"
etcetera = "0.8"
csv = "1"
