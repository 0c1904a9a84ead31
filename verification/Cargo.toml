[package]
name = "ifocus_core"
version = "0.1.0"
edition = "2021"
publish = false

[dependencies]
dirs = "*"
dotenv = "*"
reqwest = { version = "*", default-features = false, features = ["json"] }
serde = { version = "*", features = ["derive"] }
serde_json = "*"
tracing = "*"
tracing-appender = "*"
tracing-subscriber = { version = "*", features = ["env-filter"] }
windows = { version = "*", features = ["Win32_Foundation", "Win32_Graphics_Dwm"] }
