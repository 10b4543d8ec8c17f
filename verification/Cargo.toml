[package]
name = "fakie"
version = "0.1.0"
edition = "2021"
publish = false

[dependencies]
dashmap = "*"
rand = "*"
url = "*"
pingora = { version = "*", features = ["lb", "proxy"] }
clap = { version = "*", features = ["derive"] }
termcolor = "*"
async-trait = "*"
hickory-resolver = "*"
