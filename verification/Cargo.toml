[package]
name = "sqlite_filesystem"
version = "0.1.0"
edition = "2021"
publish = false

[dependencies]
chrono = "0.4"
sqlite-loadable = "*"
