[package]
name = "mdsite"
version = "0.1.0"
edition = "2021"
publish = false

[dependencies]
anyhow = "*"
clap = { version = "*", features = ["derive"] }
fs_extra = "*"
handlebars = "*"
pulldown-cmark = "*"
serde_json = "*"
serde_yaml = "*"
shellexpand = "*"
walkdir = "*"
