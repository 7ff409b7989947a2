[package]
name = "priceinfo"
version = "0.1.0"
edition = "2021"
publish = false

[dependencies]
serde_json = "1"
serde = "1"
serde_derive = "1"
poise = "0.5"
serenity = "0.11"
reqwest = { version = "0.11", default-features = false, features = ["json", "rustls-tls"] }
tokio = { version = "1", features = ["macros", "rt-multi-thread"] }
dotenv_codegen = "0.15"
