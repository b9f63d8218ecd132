[package]
name = "bjourn"
version = "0.1.0"
edition = "2021"
publish = false

[dependencies]
chrono = "0.4"
colored = "*"
exitcode = "1"
homedir = "*"
nanoid = "0.4"
rusqlite = "*"
serde_json = "1"
