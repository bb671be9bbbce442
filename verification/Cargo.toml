[package]
name = "pcap_flows"
version = "0.1.0"
edition = "2021"
publish = false

[dependencies]
base64 = "0.22"
bytes = "1"
clap = { version = "4", features = ["derive"] }
crossterm = "0.28"
ratatui = "0.28"
