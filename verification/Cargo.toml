[package]
name = "hydrogen_orbitals"
version = "0.1.0"
edition = "2021"
publish = false

[dependencies]
rand = "=0.8.8"
three-d = { version = "=0.18.2", features = ["egui-gui"] }
egui_plot = "=0.29.0"
