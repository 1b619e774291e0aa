[package]
name = "mdns"
version = "0.1.0"
edition = "2021"
publish = false

[dependencies]
dns-parser = "*"
net2 = "*"
if-addrs = "*"
futures-core = "*"
futures-util = "*"
async-stream = "*"
tokio = { version = "*", features = ["net", "time", "rt"] }
tokio-stream = "*"
