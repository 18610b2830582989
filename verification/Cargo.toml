[package]
name = "pwpush"
version = "0.1.0"
edition = "2021"
publish = false

[dependencies]
clap = { version = "4", features = ["derive"] }
log = "0.4"
reqwest = { version = "0.12", features = ["blocking"] }
stderrlog = "0.6"
urlencoding = "2"
