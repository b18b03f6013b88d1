[package]
name = "healer"
version = "0.1.0"
edition = "2021"
publish = false

[dependencies]
circular-queue = "=0.2.7"
exitcode = "=1.1.2"
nix = { version = "=0.31.3", features = ["fs", "poll", "process", "signal"] }
num_cpus = "=1.17.0"
os_pipe = "=1.2.3"
port_check = "=0.3.0"
serde = { version = "=1.0.229", features = ["derive"] }
serde_json = "=1.0.151"
