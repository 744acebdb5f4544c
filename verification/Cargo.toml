[package]
name = "docsbot"
version = "0.1.0"
edition = "2021"
publish = false

[dependencies]
anyhow = "*"
serde = { version = "*", features = ["derive"] }
serde_json = "*"
serde_path_to_error = "*"
toml = "*"
reqwest = { version = "*", default-features = false }
hyper = { version = "0.14", features = ["server", "http1", "tcp"] }
tokio = { version = "*", features = ["rt-multi-thread", "macros", "time", "net", "sync"] }
futures = "*"
git2 = { version = "*", default-features = false }
