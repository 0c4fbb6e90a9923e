[package]
name = "content_search"
version = "0.1.0"
edition = "2021"
publish = false

[dependencies]
grep = "0.3"
globset = "0.4"
chardetng = "0.1"
encoding_rs = "0.8"
once_cell = "1"
serde = { version = "1", features = ["derive"] }
tokio = { version = "1", features = ["sync"] }
crossbeam-channel = "0.5"
notify-debouncer-full = "*"
zouni = "*"
gtk = "0.18"
