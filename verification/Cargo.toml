[package]
name = "spark_connect_rust"
version = "0.1.0"
edition = "2021"
publish = false

[dependencies]
arrow-array = "*"
arrow-ipc = "*"
tonic = { version = "*", default-features = false }
uuid = { version = "*", features = ["v4"] }
prost-types = "*"
tokio = { version = "*", features = ["sync"] }

[dev-dependencies]
arrow-schema = "*"
