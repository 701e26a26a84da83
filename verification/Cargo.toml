[package]
name = "mediadecode-ffmpeg"
version = "0.1.0"
edition = "2021"
publish = false

[dependencies]
ffmpeg-next = "*"
libc = "0.2"
tracing = "0.1"
thiserror = "2"
