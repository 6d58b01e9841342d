[package]
name = "twilight-cache-redis"
version = "0.1.0"
edition = "2021"
publish = false

[dependencies]
dashmap = "5.5"
twilight-model = "0.15"
