[package]
name = "arb_engine"
version = "0.1.0"
edition = "2021"
publish = false

[dependencies]
rust_decimal = { version = "1", default-features = false, features = ["std"] }
anyhow = "1"
axum = { version = "0.7", default-features = false, features = ["json", "tokio", "http1"] }
csv = "1"
dotenv = "0.15"
ethers = { version = "2", default-features = false, features = ["abigen"] }
serde = { version = "1", features = ["derive"] }
tokio = { version = "1", features = ["rt-multi-thread", "macros", "signal", "time", "net"] }
