[package]
name = "demoji"
version = "0.1.0"
edition = "2021"
publish = false

[dependencies]
anyhow = "1"
clap = { version = "4", features = ["derive"] }
colored = "2"
notify = "6"
notify-debouncer-mini = "0.4"
serde = { version = "1", features = ["derive"] }
thiserror = "1"
toml = "0.8"
