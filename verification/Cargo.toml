[package]
name = "imgui_waywin_support"
version = "0.1.0"
edition = "2021"
publish = false

[dependencies]
imgui = "=0.12.0"
vulkano = "0.35"
