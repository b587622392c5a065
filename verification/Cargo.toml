[package]
name = "pcap_stats"
version = "0.1.0"
edition = "2021"
publish = false

[dependencies]
byteorder = "1"
regex = "1"
clap = { version = "4", features = ["derive"] }
