[package]
name = "annexb"
version = "0.1.0"
edition = "2021"
publish = false

[dependencies]
clap = { version = "4", features = ["derive"] }
ffmpeg-next = "*"
libc = "0.2"
mcap = "*"
prost = "*"
prost-types = "*"
