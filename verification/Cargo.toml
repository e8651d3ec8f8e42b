[package]
name = "memo_dioxus"
version = "0.1.0"
edition = "2021"
publish = false

[dependencies]
chrono = "=0.4.45"
futures-util = "0.3"
image = { version = "0.25", default-features = false, features = ["png"] }
native-dialog = "=0.7.0"
rm_rf = "=0.6.2"
serde = { version = "=1.0.229", features = ["derive"] }
serde_json = "=1.0.154"
