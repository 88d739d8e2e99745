[package]
name = "notes_cli"
version = "0.1.0"
edition = "2021"
publish = false

[dependencies]
rusqlite = { version = "=0.41.0", features = ["fallible_uint"] }
tui = "=0.19.0"
crossterm = "=0.25.0"
tempfile = "=3.27.0"
serenity = "=0.12.5"
tokio = { version = "=1.54.1", features = ["macros", "rt-multi-thread"] }
