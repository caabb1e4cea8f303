[package]
name = "spending_limits"
version = "0.1.0"
edition = "2021"
publish = false

[dependencies]
async-trait = "0.1"
error-stack = "0.4"
hex = "0.4"
reqwest = { version = "0.11", default-features = false, features = ["json", "rustls-tls"] }
ring = "0.17"
rust_decimal = { version = "1", features = ["serde-with-float"] }
rusty-money = { version = "0.4", features = ["iso"] }
serde = { version = "1", features = ["derive"] }
serde_json = "1"
thiserror = "1"
time = "0.3"
tokio = { version = "1", features = ["macros", "rt-multi-thread", "sync", "time"] }
utoipa = "4"
uuid = { version = "1", features = ["v4"] }
