[package]
name = "wt_cli"
version = "0.1.1"
edition = "2021"
publish = false

[dependencies]
anyhow = "*"
clap = { version = "*", features = ["derive"] }
confy = "*"
glob = "*"
serde = { version = "*", features = ["derive"] }
skim = "*"

[dev-dependencies]
tempfile = "*"
