[package]
name = "goober_launcher"
version = "0.1.0"
edition = "2021"
publish = false

[dependencies]
chrono = "0.4"
colored = "2"
crossterm = "0.27"
dirs = "5"
futures-util = "0.3"
indicatif = "0.17"
reqwest = { version = "0.11", default-features = false, features = ["stream"] }
serde = { version = "1", features = ["derive"] }
serde_json = "1"
sha2 = "0.10"
tokio = { version = "1", features = ["macros", "rt-multi-thread", "time"] }
url = "2"
winreg = "0.52"
zip-extract = "0.1"
