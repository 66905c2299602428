[package]
name = "meterwatch"
version = "0.1.0"
edition = "2021"
publish = false

[dependencies]
chrono = "0.4"
rand = "0.8"
dsmr5 = "*"
serial = "0.4"
crossterm = "0.25"
tui = "0.19"
