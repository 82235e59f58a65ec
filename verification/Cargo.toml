[package]
name = "cosmic_ext_applet_spotify"
version = "0.1.0"
edition = "2021"
publish = false

[dependencies]
dirs = "*"
serde = { version = "1", features = ["derive"] }
serde_json = "1"
tokio = { version = "1", features = ["process", "time"] }
zbus = { version = "5", default-features = false, features = ["tokio"] }
