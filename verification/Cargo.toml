[package]
name = "rusty_console"
version = "0.1.0"
edition = "2021"
publish = false

[dependencies]
async-trait = "0.1"
bollard = "0.19"
chrono = "0.4"
crossterm = "0.28"
futures-util = "0.3"
ratatui = "0.29"
thiserror = "2"
tokio = { version = "1", features = ["full"] }
