[package]
name = "system_monitor"
version = "0.1.0"
edition = "2021"
publish = false

[dependencies]
sysinfo = "0.30"
crossterm = "0.27"
ratatui = "0.26"
anyhow = "1"
