[package]
name = "sponsored_games"
version = "0.1.0"
edition = "2021"
publish = false

[dependencies]
clap = { version = "*", features = ["derive"] }
dotenvy = "*"
reqwest = { version = "*", features = ["json"] }
serde = { version = "*", features = ["derive"] }
supports-hyperlinks = "*"
terminal_hyperlink = "*"
tokio = { version = "*", features = ["macros", "rt-multi-thread"] }
