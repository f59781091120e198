[package]
name = "todomvc"
version = "0.1.0"
edition = "2021"
publish = false

[dependencies]
astra = "*"
chrono = { version = "0.4", default-features = false, features = ["std"] }
maud = "*"
rand = "0.8"
serde = { version = "1", features = ["derive"] }
serde_json = "1"
url = "2"
