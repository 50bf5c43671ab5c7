[package]
name = "gdbr"
version = "0.1.0"
edition = "2021"
publish = false

[dependencies]
chrono = "=0.4.45"
nix = { version = "=0.31.3", features = ["signal"] }
clap = { version = "=4.6.7", features = ["derive"] }
serde = { version = "=1.0.229", features = ["derive"] }
log = "=0.4.34"
env_logger = "=0.11.11"
eframe = { version = "=0.32.3", default-features = false, features = ["default_fonts", "glow", "persistence", "wayland", "x11"] }
egui = "=0.32.3"
egui_dock = { version = "=0.17.0", features = ["serde"] }
egui_extras = "=0.32.3"
rfd = "=0.17.2"
wasm-bindgen-futures = "=0.4.79"
web-sys = { version = "=0.3.106", features = ["Window", "Document", "Element", "HtmlCanvasElement"] }
