[package]
name = "rubberducky"
version = "0.1.0"
edition = "2021"
publish = false

[dependencies]
ratatui = "*"
ratatui-textarea = "*"
crossterm = "*"
color-eyre = "*"
