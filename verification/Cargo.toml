[package]
name = "motion_pipeline"
version = "0.1.0"
edition = "2021"
publish = false

[dependencies]
image = { version = "0.24", default-features = false, features = ["bmp"] }
egui_extras = { version = "0.26", default-features = false, features = ["image"] }
egui_plot = "0.26"
nokhwa = "0.10"
