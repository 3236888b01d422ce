[package]
name = "nestdbg"
version = "0.1.0"
edition = "2021"
publish = false

[dependencies]
clap = { version = "4", features = ["derive"] }
clearscreen = "*"
crossterm = "*"
directories = "*"
opener = { version = "*", features = ["reveal"] }
ratatui = "*"
serde = { version = "1", features = ["derive"] }
tabled = "*"
tokio = { version = "1", features = ["io-util", "macros", "net", "rt", "sync", "time"] }
toml = "*"
which = "*"
