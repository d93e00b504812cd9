[package]
name = "ferria"
version = "0.1.0"
edition = "2021"
publish = false

[dependencies]
id3 = "=1.17.2"
palette = "=0.7.7"
ratatui = "=0.29.0"
realfft = "=3.5.0"
rodio = "=0.20.1"
