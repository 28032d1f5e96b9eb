[package]
name = "termbg"
version = "0.6.2"
edition = "2021"
publish = false

[dependencies]
crossterm = "0.28"
futures = "0.3"
libc = "0.2"
log = "0.4"
scopeguard = "1"
simplelog = "0.12"
thiserror = "1"
tokio = { version = "1", features = ["net"] }
winapi = { version = "0.3", features = ["consoleapi", "handleapi", "processenv", "winbase", "wincon"] }
