[package]
name = "mod_updater"
version = "0.1.0"
edition = "2021"
publish = false

[dependencies]
curl = "0.4"
dotenv = "0.15"
once_cell = "1"
reqwest = { version = "0.12", features = ["json"] }
serde = { version = "1", features = ["derive"] }
serde_json = "1"
version-compare = "0.2"
zip = "2"
