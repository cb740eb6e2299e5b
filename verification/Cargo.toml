[package]
name = "llm_lsp"
version = "0.1.0"
edition = "2021"
publish = false

[dependencies]
async-lsp = { version = "0.2", features = ["tokio"] }
clap = { version = "4", features = ["derive"] }
confy = "0.6"
futures = "0.3"
inquire = { version = "0.7", features = ["editor"] }
reqwest = { version = "0.12", default-features = false, features = ["json", "rustls-tls"] }
serde = { version = "1", features = ["derive"] }
tokio = { version = "1", features = ["macros", "rt", "time", "io-std", "io-util"] }
tokio-util = { version = "0.7", features = ["compat"] }
tower = "0.4"
tracing = "0.1"
tracing-subscriber = "0.3"
uuid = { version = "1", features = ["v4"] }
