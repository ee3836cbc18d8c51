[package]
name = "rustterm"
version = "0.1.0"
edition = "2021"
publish = false

[dependencies]
chrono = { version = "0.4", default-features = false, features = ["clock", "std"] }
crossterm = "0.28"
futures-util = "0.3"
ratatui = "0.29"
tokio = { version = "1", features = ["macros", "net", "rt-multi-thread"] }
tokio-tungstenite = "0.21"
tungstenite = "0.21"
