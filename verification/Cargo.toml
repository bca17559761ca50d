[package]
name = "prediction_market_event_nostr_client"
version = "0.1.0"
edition = "2021"
publish = false

[dependencies]
prediction-market-event = "=0.15.0"
nostr = "=0.35.0"
nostr-sdk = "=0.35.0"
tokio = { version = "*", features = ["rt-multi-thread", "macros"] }
serde_json = "*"
chrono = "*"
anyhow = "*"
