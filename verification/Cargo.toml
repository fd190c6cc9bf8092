[package]
name = "playback"
version = "0.1.0"
edition = "2021"
publish = false

[dependencies]
anyhow = "*"
cpal = "*"
ffmpeg-next = "*"
ratatui = "*"
