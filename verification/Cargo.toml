[package]
name = "openspace_sync"
version = "0.1.0"
edition = "2021"
publish = false

[dependencies]
serde = { version = "1", features = ["derive"] }
serde_json = "1"
dirs = "*"
walkdir = "2"
open = "*"
reqwest = { version = "0.12", default-features = false, features = ["blocking", "json"] }
rusb = { version = "*", features = ["vendored"] }
bb-drivelist = "*"
