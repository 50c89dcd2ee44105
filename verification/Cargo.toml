[package]
name = "swapchain_sync"
version = "0.1.0"
edition = "2021"
publish = false

[dependencies]
anyhow = "1"
ash = "0.37"
ash-window = "0.10"
winit = "0.26"
