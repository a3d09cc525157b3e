[package]
name = "jukebox"
version = "0.1.0"
edition = "2021"
publish = false

[dependencies]
ctrlc = "3"
rand = "0.7"
serde_json = "1"
serenity = { version = "0.6", features = ["voice"] }
