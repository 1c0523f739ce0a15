[package]
name = "gradio"
version = "0.1.0"
edition = "2021"
publish = false

[dependencies]
anyhow = "*"
bytes = "*"
clap = "*"
futures-util = "*"
mime_guess = "*"
rand = "*"
reqwest = { version = "*", default-features = false, features = ["json", "multipart", "cookies", "rustls-tls"] }
reqwest-eventsource = "*"
serde = { version = "*", features = ["derive"] }
serde_json = "*"
tokio = { version = "*", features = ["rt-multi-thread", "macros", "time", "fs", "io-util"] }
