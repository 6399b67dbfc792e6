[package]
name = "cylinder_control"
version = "0.1.0"
edition = "2021"
publish = false

[dependencies]
env_logger = "*"
ethercrab = "*"
ethercrab-wire = "*"
log = "*"
signal-hook = "*"
tokio = { version = "*", features = ["macros", "rt-multi-thread", "time"] }
