[package]
name = "duckview"
version = "0.1.0"
edition = "2021"
publish = false

[dependencies]
comfy-table = "=7.1.4"
crossterm = "=0.29.0"
ratatui = "=0.30.2"
