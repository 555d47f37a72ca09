[package]
name = "feature"
version = "0.1.0"
edition = "2021"
publish = false

[dependencies]
anyhow = "1"
chrono = { version = "0.4", default-features = false, features = ["clock", "std"] }
clap = { version = "4", features = ["derive"] }
clap_complete = "4"
console = "*"
dialoguer = { version = "*", default-features = false }
figment = "*"
git2 = { version = "*", default-features = false }
indicatif = "*"
rayon = "1"
schemars = "*"
serde = { version = "1", features = ["derive"] }
serde_json = "1"
toml = "*"
toml_edit = "*"
