[package]
name = "bb8-redis"
version = "0.1.0"
edition = "2021"
publish = false

[dependencies]
bb8 = "0.3.1"
futures = "0.1"
tokio-core = "0.1"
redis = "0.13"
