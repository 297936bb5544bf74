[package]
name = "marain_tui"
version = "0.1.0"
edition = "2021"
publish = false

[dependencies]
bincode = "=1.3.3"
chrono = "=0.4.45"
color-eyre = "=0.6.5"
crossterm = { version = "=0.27.0", features = ["event-stream"] }
futures = "=0.3.34"
futures-util = "=0.3.34"
homedir = "=0.3.6"
log = "=0.4.34"
log2 = "=0.1.14"
rand_core = { version = "=0.6.4", features = ["getrandom"] }
ratatui = "=0.26.3"
serde = { version = "=1.0.229", features = ["derive"] }
serde_json = "=1.0.154"
tokio = { version = "=1.54.1", features = ["full"] }
tokio-tungstenite = "=0.21.0"
url = "=2.5.8"
x25519-dalek = "=2.0.1"
