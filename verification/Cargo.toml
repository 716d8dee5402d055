[package]
name = "checklist"
version = "0.1.0"
edition = "2021"
publish = false

[dependencies]
crossterm = "*"
git2 = { version = "*", default-features = false }
tokio = { version = "*", features = ["rt-multi-thread", "time"] }

[dev-dependencies]
regex = "*"
