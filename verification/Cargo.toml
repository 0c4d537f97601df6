[package]
name = "nih_plug_dioxus"
version = "0.1.0"
edition = "2021"
publish = false

[dependencies]
baseview = "*"
clap-sys = "*"
crossbeam = "*"
futures-util = "*"
keyboard-types = "*"
pollster = "*"
raw-window-handle = "0.6"
serde = { version = "1", features = ["derive"] }
softbuffer = "*"
vello = "*"
wgpu = "25"
