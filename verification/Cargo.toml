[package]
name = "upstream_sync"
version = "0.1.0"
edition = "2021"
publish = false

[dependencies]
git2 = { version = "*", default-features = false }
serde_json = "*"
url = "*"
kv = "*"
tokio = { version = "*", default-features = false, features = ["rt-multi-thread", "time", "process", "macros"] }
futures = "*"
async-broadcast = "*"
anyhow = "*"

[dev-dependencies]
tempfile = "*"
