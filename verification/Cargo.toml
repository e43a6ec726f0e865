[package]
name = "nora"
version = "0.1.0"
edition = "2021"

[dependencies]
asefile = "*"
enum-iterator = "*"
macroquad = { version = "*", default-features = false }
