[package]
name = "cricket"
version = "0.1.0"
edition = "2021"
publish = false

[dependencies]
chrono = "0.4"
clap = { version = "4", features = ["derive"] }
colored = "*"
reqwest = { version = "*", features = ["json"] }
serde = { version = "1", features = ["derive"] }
serde_json = "1"
tabled = "*"
tokio = { version = "1", features = ["macros", "rt-multi-thread"] }
