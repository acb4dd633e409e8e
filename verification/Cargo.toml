[package]
name = "borg_backup"
version = "0.1.0"
edition = "2021"
publish = false

[dependencies]
byte-unit = "*"
chrono = "0.4"
clap = { version = "4", features = ["derive"] }
hostname = "*"
log = "0.4"
mktemp = "*"
netstat2 = "*"
rpassword = "*"
serde = { version = "1", features = ["derive"] }
serde_yaml = "*"
simplelog = "*"
