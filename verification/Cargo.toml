[package]
name = "rafx_render"
version = "0.1.0"
edition = "2021"
publish = false

[dependencies]
egui = "0.15"
fnv = "1.0"
crossbeam-channel = "0.5"
raw-window-handle = "0.5"
log = "0.4"
