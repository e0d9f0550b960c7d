[package]
name = "engine"
version = "0.1.0"
edition = "2021"
publish = false

[dependencies]
arrow-ipc = "=59.3.1"
arrow-schema = "=59.3.1"
async-trait = "=0.1.92"
datafusion = { version = "=55.2.0", default-features = false, features = ["parquet", "sql"] }
datafusion-expr = { version = "=55.2.0", default-features = false }
object_store = { version = "=0.13.2", features = ["aws"] }
pyo3 = "=0.20.3"
pyo3-asyncio = { version = "=0.20.0", features = ["tokio-runtime"] }
tokio = { version = "=1.54.1", features = ["rt-multi-thread", "macros"] }
url = "=2.5.8"

[dev-dependencies]
arrow-array = "=59.3.1"
regex = "=1.13.1"
