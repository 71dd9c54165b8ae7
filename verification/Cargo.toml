[package]
name = "vercel_lambda"
version = "0.1.0"
edition = "2021"
publish = false

[dependencies]
http = "0.2"
base64 = "0.13"
serde = "1"
serde_derive = "1"
