[package]
name = "httpsys_server"
version = "0.1.0"
edition = "2021"
publish = false

[dependencies]
clap = { version = "4", features = ["derive"] }
plotters = { version = "0.3", default-features = false, features = ["svg_backend", "line_series"] }
rand = "0.8"
reqwest = { version = "0.11", features = ["blocking"] }
tokio = { version = "1", features = ["rt-multi-thread", "sync", "macros", "signal"] }
windows = { version = "0.48", features = ["Win32_Foundation", "Win32_Networking_HttpServer", "Win32_Networking_WinSock", "Win32_Security", "Win32_System_IO"] }
