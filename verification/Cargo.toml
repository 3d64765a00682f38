[package]
name = "scan_orchestrator"
version = "0.1.0"
edition = "2021"
publish = false

[dependencies]
base64 = "*"
crossbeam-channel = "*"
dircpy = "*"
home = "*"
humansize = "*"
image = { version = "*", default-features = false, features = ["png"] }
infer = "*"
jxl-oxide = { version = "*", features = ["image"] }
log = "*"
rayon = "*"
serde = { version = "*", features = ["derive"] }
simplelog = "*"
trash = "*"
