[package]
name = "graph_oauth"
version = "0.1.0"
edition = "2021"
publish = false

[dependencies]
base64 = "=0.23.1"
reqwest = { version = "=0.13.5", default-features = false, features = ["blocking", "form", "json"] }
ring = "=0.17.14"
serde = { version = "=1.0.229", features = ["derive"] }
serde_json = "=1.0.151"
time = "=0.3.55"
url = "=2.5.8"
webbrowser = "=1.2.4"
