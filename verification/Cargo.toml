[package]
name = "explain"
version = "0.1.0"
edition = "2021"
publish = false

[dependencies]
bincode = "1.3"
directories = "5"
gl = "0.14"
image = { version = "0.24", default-features = false, features = ["png"] }
nalgebra = "0.32"
sdl2 = "0.37"
serde = { version = "1", features = ["derive"] }
serde_json = "1"
