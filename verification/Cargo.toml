[package]
name = "hostmon"
version = "0.1.0"
edition = "2021"
publish = false

[dependencies]
minijinja = "*"
serde_json = "*"
serde = { version = "*", features = ["derive"] }
log = "*"
lettre = { version = "*", default-features = false, features = ["builder", "smtp-transport", "tokio1"] }
reqwest = { version = "*", default-features = false }
tokio = { version = "*", features = ["rt", "macros", "time"] }
sysinfo = "*"
