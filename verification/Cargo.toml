[package]
name = "rsreddit"
version = "0.1.2"
edition = "2021"
publish = false

[dependencies]
curl = "*"
dotenv = "*"
rand = "*"
serde = { version = "*", features = ["derive"] }
serde_json = "*"
tiny_http = "*"
webbrowser = "*"
