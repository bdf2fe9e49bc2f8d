[package]
name = "blackbook"
version = "0.1.0"
edition = "2021"
publish = false

[dependencies]
hmac = "*"
sha2 = "*"
hex = "*"
urlencoding = "*"
validator = "*"
serde = { version = "*", features = ["derive"] }
serde_json = "*"
reqwest = { version = "*", default-features = false, features = ["cookies", "json"] }
tokio = { version = "*", features = ["macros", "rt-multi-thread", "time"] }
clap = { version = "*", features = ["derive"] }
colored = "*"
dotenv = "*"
scraper = "*"
color-eyre = "*"
tracing = "*"
tracing-subscriber = "*"
