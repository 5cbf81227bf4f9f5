[package]
name = "gl_renderer_plugin"
version = "0.1.0"
edition = "2021"
publish = false

[dependencies]
gl = "=0.14.0"
uuid = { version = "=1.29.0", features = ["v4"] }
