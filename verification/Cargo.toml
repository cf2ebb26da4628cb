[package]
name = "shelly_remote_helper"
version = "0.1.0"
edition = "2021"
publish = false

[dependencies]
serde = { version = "1", features = ["derive"] }
serde_json = "1"
log = "0.4"
env_logger = "*"
clap = { version = "4", features = ["derive"] }
colored = "*"
prettytable-rs = "*"
filetime = "*"
url = "2"
tungstenite = "*"
reqwest = { version = "*", default-features = false, features = ["blocking"] }
diqwest = { version = "*", default-features = false, features = ["blocking"] }
