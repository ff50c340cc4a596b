[package]
name = "tpch_bench"
version = "0.1.0"
edition = "2021"
publish = false

[dependencies]
chrono = "=0.4.31"
datafusion = "=34.0.0"
serde = { version = "*", features = ["derive"] }
serde_json = "*"
structopt = "*"
tokio = { version = "*", features = ["macros", "rt-multi-thread"] }
