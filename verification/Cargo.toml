[package]
name = "allrems"
version = "0.1.0"
edition = "2021"
publish = false

[dependencies]
enum-map = "2"
hashbrown = "0.14"
macroquad = "0.3"
strum = { version = "0.24", features = ["derive"] }
