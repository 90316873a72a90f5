[package]
name = "pseudo3d"
version = "0.1.0"
edition = "2021"
publish = false

[dependencies]
png = "0.17"
softbuffer = "0.3"
winit = "0.28"
windows-sys = { version = "0.45", features = ["Win32_Media"] }
