[package]
name = "next_app_entries"
version = "0.1.0"
edition = "2021"
publish = false

[dependencies]
anyhow = "1"
indexmap = "1.9.3"
