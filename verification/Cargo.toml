[package]
name = "mf-cli"
version = "0.1.0"
edition = "2021"
publish = false

[dependencies]
clap = "4"
dialoguer = "0.11"
open = "5"
reqwest = { version = "0.12", features = ["blocking", "json"] }
serde = "1"
serde_derive = "1"
serde_json = "1"
urlencoding = "2"
