[package]
name = "zigzag-score"
version = "0.1.0"
edition = "2021"
publish = false

[dependencies]
async-graphql = { version = "=7.0.17", default-features = false }
async-trait = "=0.1.92"
bcs = "=0.1.6"
linera-views = { version = "=0.15.23", default-features = false }
serde = { version = "1.0", features = ["derive"] }
serde_json = "=1.0.154"
thiserror = "=1.0.69"
