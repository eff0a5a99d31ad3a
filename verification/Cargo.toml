[package]
name = "bmpfntgen"
version = "0.1.0"
edition = "2021"
publish = false

[dependencies]
image = "0.22"
rusttype = "0.8"
serde = { version = "1", features = ["derive"] }
serde_json = "1"
structopt = "0.3"
