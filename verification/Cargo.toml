[package]
name = "antenna_status"
version = "0.1.0"
edition = "2021"
publish = false

[dependencies]
chrono = "0.4"
clap = { version = "4", features = ["derive"] }
fltk = "1"
http = "1"
serde_json = "1"
telnet = "*"
ureq = { version = "2", features = ["json"] }
xmltree = "*"
