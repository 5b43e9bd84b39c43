[package]
name = "fft"
version = "0.1.0"
edition = "2021"
publish = false

[dependencies]
hound = "=3.5.1"
rustfft = "6"
egui = "=0.27.2"
egui_plot = "=0.27.2"
clap = { version = "4", default-features = false, features = ["std", "derive", "help", "usage", "error-context"] }
serde = { version = "1", features = ["derive"] }
