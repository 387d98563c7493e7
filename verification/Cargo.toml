[package]
name = "turbod"
version = "0.1.0"
edition = "2021"
publish = false

[dependencies]
go-parse-duration = "*"
serde = { version = "*", features = ["derive"] }
serde_json = "*"
humantime = "*"
directories = "*"
