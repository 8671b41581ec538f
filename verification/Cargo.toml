[package]
name = "text_weather"
version = "0.1.0"
edition = "2021"
publish = false

[dependencies]
chrono = { version = "0.4", default-features = false, features = ["std"] }
clap = "2"
quick-xml = "0.22"
reqwest = { version = "0.11", default-features = false, features = ["blocking", "rustls-tls"] }
url = "2"
