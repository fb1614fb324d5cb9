[package]
name = "conspectus"
version = "0.1.0"
edition = "2021"
publish = false

[dependencies]
prettytable-rs = "*"
rayon = "*"
reqwest = { version = "*", features = ["blocking", "json"] }
rust-ini = "*"
serde = { version = "*", features = ["derive"] }
serde_json = "*"
url = "*"
