[package]
name = "drone_control"
version = "0.1.0"
edition = "2021"
publish = false

[dependencies]
anyhow = "1"
ctrlc = "3"
ffmpeg-next = "*"
sdl2 = "*"
