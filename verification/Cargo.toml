[package]
name = "p4tui"
version = "0.1.0"
edition = "2021"
publish = false

[dependencies]
anyhow = "1"
clap = { version = "4", features = ["cargo"] }
crossbeam-channel = "0.5"
crossterm = { version = "0.26", features = ["serde"] }
dirs-next = "2"
log = "0.4"
ratatui = "0.22"
rayon-core = "1"
regex = "1"
ron = "0.8"
serde = { version = "1", features = ["derive"] }
thiserror = "1"
unicode-truncate = "0.2"
unicode-width = "0.1"
