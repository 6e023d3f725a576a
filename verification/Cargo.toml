[package]
name = "pngquant_interactive"
version = "0.1.0"
edition = "2021"
publish = false

[dependencies]
imagequant = { version = "=4.4.1", default-features = false }
png = "=0.18.1"
rgb = "=0.8.53"
clap = { version = "=4.6.7", features = ["derive"] }
anyhow = "=1.0.104"
