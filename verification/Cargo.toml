[package]
name = "samousse"
version = "0.1.0"
edition = "2021"
publish = false

[dependencies]
anyhow = "=1.0.104"
dotenvy = "=0.15.7"
futures = "=0.3.34"
poise = "=0.7.0"
rand = "=0.10.3"
reqwest = { version = "=0.13.5", features = ["json", "form"] }
serde = { version = "=1.0.229", features = ["derive"] }
serde_json = "=1.0.151"
serenity = "=0.12.5"
tokio = { version = "=1.53.2", features = ["full"] }
tokio-tungstenite = "=0.30.0"
tracing = "=0.1.44"
tracing-subscriber = { version = "=0.3.23", features = ["env-filter"] }
tungstenite = "=0.30.0"
twitch_api = { version = "=0.8.0", features = ["eventsub", "helix", "reqwest", "client"] }
twitch_oauth2 = "=0.17.1"
url = "=2.5.8"
