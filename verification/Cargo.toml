[package]
name = "ferris_fetch"
version = "0.1.0"
edition = "2021"
publish = false

[dependencies]
url = "*"
scraper = "*"
sanitize-filename = "*"
rand = "*"
reqwest = { version = "*", default-features = false, features = ["rustls-tls"] }
tokio = { version = "*", features = ["macros", "rt-multi-thread", "time", "fs"] }
futures = "*"
clap = { version = "*", features = ["derive"] }
colored = "*"
indicatif = "*"
