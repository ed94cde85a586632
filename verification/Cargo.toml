[package]
name = "arrow_ipc_table"
version = "0.1.0"
edition = "2021"
publish = false

[dependencies]
datafusion = { version = "*", default-features = false }

[dev-dependencies]
tokio = { version = "1", features = ["rt"] }
