[package]
name = "planflow"
version = "0.1.0"
edition = "2021"
publish = false

[dependencies]
datafusion = { version = "*", features = ["avro"] }
petgraph = "*"
tokio = { version = "*", features = ["rt-multi-thread", "macros"] }
serde = { version = "*", features = ["derive"] }
serde_json = "*"
clap = { version = "*", features = ["derive"] }
