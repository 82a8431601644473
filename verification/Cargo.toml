[package]
name = "systemd_manager_tui"
version = "0.1.0"
edition = "2021"
publish = false

[dependencies]
color-eyre = "=0.6.5"
crossterm = "=0.29.0"
ratatui = "=0.30.2"
zbus = "5"
