[package]
name = "open_gl"
version = "0.1.0"
edition = "2021"
publish = false

[dependencies]
fermium = { version = "=22605.0.1", features = ["cargo_check"] }
gl33 = "=0.2.1"
glm = "=0.3.0"
stb_image = "=0.3.0"
ultraviolet = "=0.10.0"
