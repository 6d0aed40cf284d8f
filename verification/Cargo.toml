[package]
name = "hangman"
version = "0.1.0"
edition = "2021"
publish = false

[dependencies]
color-eyre = "*"
crossterm = "*"
random_word = { version = "*", features = ["en"] }
ratatui = "*"
tui-input = "*"
