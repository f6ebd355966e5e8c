[package]
name = "arc_stroke"
version = "0.1.0"
edition = "2021"
publish = false

[dependencies]
emath = { version = "0.31", default-features = false }
ecolor = { version = "0.31", default-features = false }
serde = { version = "1", features = ["derive"] }
