[package]
name = "pomodoro-tui"
version = "0.1.0"
edition = "2021"
publish = false

[dependencies]
crossterm = "0.28"
ratatui = "0.29"
tui-big-text = "0.7"
