[package]
name = "pixfont"
version = "0.1.0"
edition = "2021"
publish = false

[dependencies]
indexmap = { version = "=2.14.2", features = ["serde"] }
json = "=0.12.4"
glifnames = "=0.2.0"
serde = { version = "=1.0.229", features = ["derive"] }
toml = "=0.8.23"
thiserror = "=2.0.21"
app_data = "=0.1.1"
