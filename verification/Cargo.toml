[package]
name = "gimslib"
version = "0.1.0"
edition = "2021"
publish = false

[dependencies]
egui = "=0.36.2"
egui-winit = { version = "*", default-features = false }
winit = "=0.30.13"
