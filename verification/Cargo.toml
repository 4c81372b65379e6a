[package]
name = "ratefy"
version = "0.1.0"
edition = "2021"
publish = false

[dependencies]
rust_decimal = "1"
iso_currency = { version = "*", features = ["iterator"] }
strum = "*"
ratatui = "*"
crossterm = "*"
