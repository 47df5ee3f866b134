[package]
name = "simplemm"
version = "0.1.0"
edition = "2021"
publish = false

[dependencies]
chrono = { version = "0.4", features = ["serde"] }
clap = "4"
ctrlc = "3"
daemonize = "*"
faccess = "*"
log = "0.4"
mailparse = "*"
mysql = { version = "*", default-features = false, features = ["minimal"] }
regex = "1"
serde = { version = "1", features = ["derive"] }
serde_json = "1"
syslog = "*"
toml = "*"
users = "*"
uuid = { version = "1", features = ["v4"] }
