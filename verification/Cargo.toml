[package]
name = "guest_driver"
version = "0.1.0"
edition = "2021"
publish = false

[dependencies]
tokio = { version = "*", features = ["process", "time", "rt", "rt-multi-thread"] }
os_pipe = "*"
nix = { version = "*", features = ["fs"] }
port_check = "*"
exitcode = "*"
