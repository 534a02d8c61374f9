[package]
name = "wallpaper_changer"
version = "0.1.0"
edition = "2021"
publish = false

[dependencies]
chrono = "*"
confy = "*"
ctrlc = "*"
directories = "*"
geodate = "*"
serde = { version = "*", features = ["derive"] }
toml = "*"
wallpaper = "*"
