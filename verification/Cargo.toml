[package]
name = "nih_plug_slint"
version = "0.1.0"
edition = "2021"
publish = false

[dependencies]
slint = { version = "=1.18.1", default-features = false, features = ["std", "compat-1-2"] }
crossbeam = "=0.8.5"
once_cell = "=1.21.4"
serde = { version = "=1.0.229", features = ["derive"] }
keyboard-types = "0.6"
baseview = { version = "=0.1.4", features = ["opengl"] }
nice-plug-core = "=0.1.5"
