[package]
name = "bewegtbild"
version = "0.1.0"
edition = "2021"
publish = false

[dependencies]
clap = { version = "=4.5.61", default-features = false, features = ["std", "derive", "help"] }
egui = "=0.27.2"
env_logger = { version = "=0.11.11", default-features = false }
notify = "=8.2.0"
pdfium-render = "=0.8.37"
serde = { version = "=1.0.229", features = ["derive"] }
serde_json = "=1.0.151"
