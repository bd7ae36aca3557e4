[package]
name = "nocojs"
version = "0.1.0"
edition = "2021"
publish = false

[dependencies]
image = "=0.25.10"
fast_image_resize = "=6.1.0"
base64 = "=0.23.1"
urlencoding = "=2.1.3"
url = "=2.5.8"
reqwest = { version = "=0.13.5", default-features = false }
rusqlite = { version = "=0.40.2", features = ["bundled"] }
tokio = { version = "=1.53.2", features = ["rt", "rt-multi-thread", "macros", "time"] }
futures = "=0.3.34"
oxc = { version = "=0.144.0", features = ["semantic", "codegen", "ast_visit"] }
