[package]
name = "cairo_bootloader"
version = "0.1.0"
edition = "2021"
publish = false

[dependencies]
cairo-vm = { version = "*", features = ["extensive_hints"] }
clap = { version = "4", features = ["derive"] }
num-traits = "0.2"
serde = { version = "1", features = ["derive"] }
serde_json = "1"
thiserror-no-std = "2"
