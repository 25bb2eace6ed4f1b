[package]
name = "rs_overlay"
version = "0.1.0"
edition = "2021"
publish = false

[dependencies]
winit = { version = "0.29", default-features = false, features = ["x11", "wayland", "wayland-dlopen", "rwh_06"] }
egui = "0.27"
egui-winit = { version = "0.27", default-features = false }
pollster = "0.3"
x11rb = { version = "0.13", features = ["shape"] }
parking_lot_core = "=0.9.9"
