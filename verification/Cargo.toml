[package]
name = "cargo-seek"
version = "0.1.0"
edition = "2021"
publish = false

[dependencies]
chrono = { version = "0.4", default-features = false, features = ["std", "clock", "serde"] }
clap = { version = "4", features = ["derive", "cargo", "string"] }
crates_io_api = { version = "0.11", default-features = false, features = ["rustls"] }
crossterm = { version = "0.28", features = ["event-stream"] }
indexmap = "2"
num-format = "0.4"
open = "5"
ratatui = "0.29"
reqwest = { version = "0.12", default-features = false, features = ["rustls-tls"] }
serde = { version = "1", features = ["derive"] }
serde_json = "1"
sys-locale = "0.3"
thiserror = "1"
tokio = { version = "1", features = ["rt-multi-thread", "macros", "sync", "time"] }
tui-input = "0.11"
