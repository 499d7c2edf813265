[package]
name = "polymarket_arb_bot"
version = "0.1.0"
edition = "2021"
publish = false

[dependencies]
axum = "0.7"
clap = { version = "4", features = ["derive"] }
rand = "0.8"
rand_distr = "0.4"
serde = { version = "1", features = ["derive"] }
serde_json = "1"
tokio = { version = "1", features = ["full"] }
