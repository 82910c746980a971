[package]
name = "amplify_shell"
version = "0.1.0"
edition = "2021"
publish = false

[dependencies]
anyhow = "=1.0.104"
eframe = { version = "=0.36.2", default-features = false, features = ["default_fonts", "glow", "persistence", "x11"] }
egui = "=0.36.2"
headless_chrome = "=1.0.22"
log = "=0.4.34"
serde = { version = "=1.0.229", features = ["derive"] }
tokio = { version = "=1.53.2", features = ["macros", "rt-multi-thread", "sync"] }
