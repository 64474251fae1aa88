[package]
name = "winsweep"
version = "0.1.0"
edition = "2021"
publish = false

[dependencies]
anyhow = "1"
async-trait = "0.1"
chrono = "0.4"
clap = { version = "4", features = ["derive"] }
dirs = "5"
futures = "0.3"
glob = "0.3"
once_cell = "1"
parking_lot = "0.12"
regex = "1"
reqwest = { version = "0.11", default-features = false, features = ["json", "rustls-tls"] }
serde = { version = "1", features = ["derive"] }
serde_json = "1"
serde_yaml = "0.9"
shellexpand = "3"
tokio = { version = "1", features = ["full"] }
toml = "0.8"
tracing = "0.1"
tracing-subscriber = "0.3"
uuid = { version = "1", features = ["v4", "serde"] }
walkdir = "2"
which = "6"
windows = { version = "0.52", features = ["Win32_Foundation", "Win32_System_Registry", "Win32_Storage_FileSystem", "Win32_System_Diagnostics_ToolHelp", "Win32_System_RestartManager", "Win32_System_Services", "Win32_Security"] }
