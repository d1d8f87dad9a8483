[package]
name = "ruts"
version = "0.1.0"
edition = "2021"
publish = false

[dependencies]
clap = { version = "4", features = ["derive"] }
clap_complete = "4"
serde = "1"
serde_derive = "1"
serde_yaml = "0.9"
tmux_interface = "0.2"
