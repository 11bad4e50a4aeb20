[package]
name = "github_release_bot"
version = "0.1.0"
edition = "2021"
publish = false

[dependencies]
async-trait = "0.1"
chrono = { version = "=0.4.45", features = ["serde"] }
dotenvy = "0.15"
env_logger = "0.11"
log = "0.4"
reqwest = { version = "0.12", features = ["json"] }
serde = { version = "1", features = ["derive"] }
sqlx = { version = "0.8", features = ["runtime-tokio", "sqlite", "chrono", "migrate", "macros"] }
# Not used by this crate: teloxide-core asks for takecell 0.1, and 0.1.2 needs
# a newer compiler than the one this crate is built with.
takecell = "<0.1.2"
teloxide = { version = "0.17", features = ["macros"] }
tokio = { version = "1", features = ["macros", "rt-multi-thread", "time"] }
urlencoding = "=2.1.3"
uuid = { version = "=1.29.0", features = ["v4", "v7", "serde"] }
