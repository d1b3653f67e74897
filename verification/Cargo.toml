[package]
name = "cmd3"
version = "0.1.0"
edition = "2021"
publish = false

[dependencies]
clap = { version = "4", features = ["derive"] }
rustyline = { version = "*", features = ["derive"] }
shlex = "1"
thiserror = "1"
