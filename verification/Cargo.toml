[package]
name = "daemar"
version = "0.1.0"
edition = "2021"
publish = false

[dependencies]
sha2 = "0.10"
uuid = { version = "1", features = ["v4", "v7"] }
serde = { version = "1", features = ["derive"] }
serde_json = "1"
tar = "0.4"
clap = { version = "4", features = ["derive"] }
ignore = "0.4"
dotenvy = "0.15"
time = { version = "0.3", features = ["formatting", "parsing"] }
ureq = { version = "2", features = ["json"] }
