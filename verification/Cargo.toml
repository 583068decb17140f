[package]
name = "time_resolver"
version = "0.1.0"
edition = "2021"
publish = false

[dependencies]
chrono = "0.4"
parse_duration = "2"
clap = { version = "4", features = ["derive"] }
