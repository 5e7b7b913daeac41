[package]
name = "klondike"
version = "0.1.0"
edition = "2021"
publish = false

[dependencies]
rand = "0.8"
termion = "1.5"
config = "0.10"
directories = "2"
serde = { version = "1", features = ["derive"] }
log = "0.4"
simplelog = "0.7"
log-panics = "2"
