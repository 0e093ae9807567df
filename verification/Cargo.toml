[package]
name = "rusty_vault"
version = "0.1.0"
edition = "2021"
publish = false

[dependencies]
aes = "0.8"
aes-gcm = "0.10"
rust-argon2 = "1.0"
chrono = { version = "0.4", features = ["serde"] }
clipboard = "0.5"
crossterm = "0.25"
directories = "4"
rand = "0.8"
serde = { version = "1", features = ["derive"] }
serde_json = "1"
tui = "0.19"
