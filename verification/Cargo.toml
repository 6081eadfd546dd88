[package]
name = "nebulous_data"
version = "0.1.0"
edition = "2021"
publish = false

[dependencies]
indexmap = "2"
itertools = "=0.12.1"
quick-xml = "=0.31.0"
rand = "=0.8.8"
rand_xoshiro = "=0.6.0"
uuid = { version = "=1.29.0", features = ["v4"] }

[dev-dependencies]
base64 = "=0.22.1"
