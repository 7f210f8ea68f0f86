[package]
name = "alfred-eudic"
version = "0.1.0"
edition = "2021"
publish = false

[dependencies]
alfred = "*"
async-trait = "0.1"
clap = { version = "4", features = ["derive", "env"] }
once_cell = "1"
reqwest = { version = "0.12", default-features = false, features = ["json", "rustls-tls"] }
rusqlite = { version = "*", features = ["bundled"] }
serde = { version = "1", features = ["derive"] }
serde_json = "1"
tokio = { version = "1", features = ["macros", "rt-multi-thread"] }
