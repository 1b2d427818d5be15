[package]
name = "rendertile"
version = "0.1.0"
edition = "2021"
publish = false

[dependencies]
hex = "0.4"
png = "0.17"
serde_json = "1"
tiny-skia = "0.11"
