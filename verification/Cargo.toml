[package]
name = "twoyi_server"
version = "0.1.0"
edition = "2021"
publish = false

[dependencies]
clap = { version = "4", features = ["derive"] }
env_logger = "*"
libc = "0.2"
log = "0.4"
serde = { version = "1", features = ["derive"] }
serde_json = "1"
unix_socket = "*"

[dev-dependencies]
uinput-sys = "*"
