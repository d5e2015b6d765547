[package]
name = "authgate"
version = "0.1.0"
edition = "2021"
publish = false

[dependencies]
dotenv = "*"
reqwest = { version = "*", default-features = false }
rocket = "*"
rocket_dyn_templates = { version = "*", features = ["tera"] }
rusqlite = { version = "*", features = ["bundled"] }
uuid = { version = "*", features = ["v4"] }
