[package]
name = "gers"
version = "0.1.0"
edition = "2021"
publish = false

[dependencies]
smol_str = "=0.2.2"
rand = "=0.8.8"
rand_xorshift = "=0.3.0"
glow = "=0.7.2"
glutin = "0.30"
glutin-winit = "0.3"
raw-window-handle = "0.5"
winit = { version = "0.28", features = ["serde"] }
nalgebra = "=0.24.1"
image = "=0.23.14"
log = "0.4"
slog = "2"
slog-async = "2"
slog-term = "2"
slog-scope = "4"
slog-stdlog = "4"
serde = { version = "1", features = ["derive"] }
serde_yaml = "0.8"
voronoi = "=0.1.4"
