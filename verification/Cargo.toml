[package]
name = "commit-lsp"
version = "0.1.0"
edition = "2021"
publish = false

[dependencies]
async-trait = "0.1"
clap = { version = "4", features = ["derive"] }
colored = "2"
directories = "5"
git-url-parse = "0.4"
gitlab = "*"
reqwest = { version = "0.12", features = ["json"] }
secure-string = "0.3"
serde = { version = "1", features = ["derive"] }
serde_json = "1"
tokio = { version = "1", features = ["full"] }
toml = "0.8"
tower-lsp = "0.20"
tracing = "0.1"
tracing-subscriber = "0.3"
