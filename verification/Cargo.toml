[package]
name = "tictactoe"
version = "0.1.0"
edition = "2021"
publish = false

[dependencies]
bytemuck = { version = "*", features = ["derive"] }
futures = "*"
image = { version = "*", default-features = false, features = ["png"] }
wgpu = "*"
winit = "*"
