[package]
name = "commit"
version = "0.1.0"
edition = "2021"
publish = false

[dependencies]
priority-queue = "1"
git2 = { version = "0.18", default-features = false }
walkdir = "2"
rayon = "1"
serde = { version = "1", features = ["derive"] }
toml = "0.7"
directories = "5"
anyhow = "1"
thiserror = "1"
