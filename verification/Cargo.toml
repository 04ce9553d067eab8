[package]
name = "hummingbird"
version = "0.1.0"
edition = "2021"
publish = false

[dependencies]
url = "=2.5.8"
indexmap = "=2.14.2"
rustc-hash = "=2.1.3"
rand = "=0.9.5"
directories = "=6.0.0"
clap = { version = "=4.6.7", features = ["derive"] }
open = "=5.4.5"
nucleo = "0.5"
image = { version = "0.25", default-features = false, features = ["png", "jpeg", "gif", "webp", "bmp"] }
serde = { version = "1", features = ["derive"] }
serde_json = "1"
