[package]
name = "rustmssql"
version = "0.1.0"
edition = "2021"
publish = false

[dependencies]
parquet = "=60.0.0"
tiberius = { version = "=0.13.0", features = ["chrono"] }
tokio = { version = "=1.53.2", features = ["rt", "net", "io-util", "time"] }
tokio-util = { version = "=0.7.19", features = ["compat"] }
pyo3 = "=0.29.3"
futures-util = "*"
chrono = "*"

[dev-dependencies]
bytes = "=1.12.1"
