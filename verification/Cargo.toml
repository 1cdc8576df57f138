[package]
name = "wishlist"
version = "0.1.0"
edition = "2021"
publish = false

[dependencies]
rocket = "0.5"
rocket_dyn_templates = { version = "0.2", features = ["tera"] }
diesel = { version = "2", features = ["postgres"] }
dotenvy = "0.15"
serde = { version = "1", features = ["derive"] }
