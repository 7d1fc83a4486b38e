[package]
name = "unified_clipboard"
version = "0.1.0"
edition = "2021"
publish = false

[dependencies]
ctrlc = "*"
hostname = "*"
reqwest = { version = "*", default-features = false, features = ["blocking", "json"] }
serde = { version = "*", features = ["derive"] }
serde_json = "*"
single-instance = "*"
structopt = "*"
websocket = { version = "*", default-features = false, features = ["sync"] }
x11-clipboard = "*"
