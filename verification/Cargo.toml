[package]
name = "thermal_printer"
version = "0.1.0"
edition = "2021"
publish = false

[dependencies]
base64 = "=0.22.1"
chrono = "=0.4.45"
image = { version = "=0.25.10", default-features = false, features = ["png", "jpeg", "bmp"] }
printers = "=2.3.0"
rusb = "=0.9.4"
serde = { version = "=1.0.229", features = ["derive"] }
serialport = { version = "=4.10.1", default-features = false }
winapi = { version = "0.3", features = ["minwindef", "winnt", "winspool"] }
