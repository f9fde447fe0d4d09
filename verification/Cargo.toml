[package]
name = "idio"
version = "0.1.0"
edition = "2021"
publish = false

[dependencies]
colored = "2"
dirs = "4"
vulkanalia = { version = "0.16", features = ["libloading", "window"] }
winapi = { version = "0.3", features = ["consoleapi", "processenv", "winbase"] }
winit = "0.27"
