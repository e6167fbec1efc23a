[package]
name = "sagansearch"
version = "0.1.0"
edition = "2021"
publish = false

[dependencies]
console = "=0.15.11"
ctrlc = "=3.5.2"
dirs = "=7.0.0"
entropy = "=0.4.3"
minreq = { version = "=2.14.1", features = ["https"] }
num-bigint = "=0.4.8"
rgb = "=0.8.53"
serde = { version = "=1.0.229", features = ["derive"] }
serde_json = "=1.0.154"
textplots = "=0.8.7"
