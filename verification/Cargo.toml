[package]
name = "dpapi"
version = "0.1.0"
edition = "2021"
publish = false

[dependencies]
clap = { version = "4", features = ["cargo"] }
rustler = "*"
winapi = { version = "0.3", features = ["winbase", "consoleapi", "fileapi", "wincon", "windef", "minwindef"] }
