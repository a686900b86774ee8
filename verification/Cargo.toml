[package]
name = "stream_body"
version = "0.1.0"
edition = "2021"
publish = false

[dependencies]
async-pipe = "*"
bytes = "*"
http = "*"
http-body = "*"
log = "*"
pin-project-lite = "*"
tokio = { version = "*", features = ["rt", "io-util"] }
