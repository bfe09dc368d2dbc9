[package]
name = "search_ads_codec"
version = "0.1.0"
edition = "2021"
publish = false

[dependencies]
serde = "1"

[dev-dependencies]
chrono = "0.4"
