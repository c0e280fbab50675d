[package]
name = "cdp_html_shot"
version = "0.1.0"
edition = "2021"
publish = false

[dependencies]
anyhow = "1"
chrono = "0.4"
ctrlc = "3"
futures-util = "0.3"
rand = "0.9"
regex = "1"
serde_json = "1"
tokio = { version = "1", features = ["full"] }
tokio-tungstenite = "*"
which = "*"
winreg = "*"
